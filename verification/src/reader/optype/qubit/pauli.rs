//! Definitions for the Pauli-product rotation gate.

use vstd::prelude::*;

verus! {

/// A Pauli operator.
#[derive(Clone, Copy, Debug, PartialEq, Eq, Structural)]
pub enum Pauli {
    /// Pauli-X operator.
    X,
    /// Pauli-Y operator.
    Y,
    /// Pauli-Z operator.
    Z,
    /// Identity operator.
    I,
}

impl Pauli {
    /// Returns a string representation of the Pauli operator.
    pub fn name(&self) -> (r: &'static str)
        ensures
            r@ == pauli_name(*self),
    {
        proof {
            reveal_strlit("X");
            reveal_strlit("Y");
            reveal_strlit("Z");
            reveal_strlit("I");
        }
        match self {
            Pauli::X => "X",
            Pauli::Y => "Y",
            Pauli::Z => "Z",
            Pauli::I => "I",
        }
    }
}

/// The single-letter code of a Pauli operator.
pub open spec fn pauli_name(p: Pauli) -> Seq<char> {
    match p {
        Pauli::X => seq!['X'],
        Pauli::Y => seq!['Y'],
        Pauli::Z => seq!['Z'],
        Pauli::I => seq!['I'],
    }
}

/// An arbitrary Pauli-product rotation gate, composed of a list of Pauli
/// operators.
///
/// The operation is characterized by a rotation angle `theta` and a Pauli
/// tensor product `P`:
///
/// ```text
/// PPR(theta) = exp(i * theta * P),  P = P1 (x) P2 (x) ... (x) Pn
/// ```
#[derive(Clone, Copy, Debug)]
pub struct PauliString<'a> {
    /// The Pauli operators of the string, in order.
    paulis: &'a Vec<Pauli>,
}

impl<'a> View for PauliString<'a> {
    type V = Seq<Pauli>;

    closed spec fn view(&self) -> Seq<Pauli> {
        self.paulis@
    }
}

impl<'a> PauliString<'a> {
    /// Create a new Pauli string over a list of operators.
    pub fn new(paulis: &'a Vec<Pauli>) -> (r: PauliString<'a>)
        ensures
            r@ == paulis@,
    {
        PauliString { paulis }
    }

    /// Returns the number of Pauli operators in this string.
    pub fn len(&self) -> (r: usize)
        ensures
            r == self@.len(),
    {
        self.paulis.len()
    }

    /// Returns `true` if this string is empty.
    pub fn is_empty(&self) -> (r: bool)
        ensures
            r == (self@.len() == 0),
    {
        self.paulis.len() == 0
    }

    /// Returns the `n`-th Pauli operator in this string.
    pub fn get(&self, n: usize) -> (r: Pauli)
        requires
            n < self@.len(),
        ensures
            r == self@[n as int],
    {
        self.paulis[n]
    }

    /// Returns the Pauli operators in this string, in order.
    pub fn iter(&self) -> (r: &'a Vec<Pauli>)
        ensures
            r@ == self@,
    {
        self.paulis
    }

    /// Returns the number of qubits that this gate acts on: one per Pauli
    /// operator in the string.
    pub fn num_qubits(&self) -> (r: usize)
        ensures
            r == self@.len(),
    {
        self.paulis.len()
    }

    /// Returns the number of floating point parameters that this gate takes as
    /// inputs: always one, the rotation angle.
    pub fn num_params(&self) -> (r: usize)
        ensures
            r == 1,
    {
        1
    }
}

} // verus!
