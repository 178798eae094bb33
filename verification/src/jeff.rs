//! Loading of jeff programs: the envelope and version gate.
//!
//! [`Jeff::read_slice`] and [`Jeff::read`] decode one binary message,
//! check that its schema version equals [`crate::SCHEMA_VERSION`] and that
//! every region reference is in range, and return the decoded module. Both
//! entry points refine the same [`spec_load`] function, so decoding the same
//! bytes through either path yields the same module.

use vstd::prelude::*;
use vstd::slice::slice_subrange;

use crate::data::ControlFlowData;
use crate::data::DefinitionData;
use crate::data::FunctionData;
use crate::data::ModuleData;
use crate::data::OpTypeData;
use crate::data::RegionData;
use crate::decode::d_module;
use crate::model::branches_in_range;
use crate::model::cf_refs_ok;
use crate::model::def_wf;
use crate::model::function_wf;
use crate::model::module_wf;
use crate::model::op_type_refs_ok;
use crate::model::region_refs_ok;
use crate::model::ModuleModel;
use crate::reader::Module;
use crate::wire::parse_module;
use crate::JeffError;
use crate::SCHEMA_VERSION;

verus! {

/// What loading a byte buffer yields: the decoded module model and the
/// position past the consumed message, or the exact error.
///
/// A buffer that does not parse as a module message, or whose region
/// references dangle, is rejected as [`JeffError::InvalidFile`]; one that
/// parses but carries another schema version is rejected as
/// [`JeffError::InvalidVersion`] with that version.
pub open spec fn spec_load(bytes: Seq<u8>) -> Result<(ModuleModel, int), JeffError> {
    match parse_module(bytes, 0) {
        None => Err(JeffError::InvalidFile),
        Some((m, end)) => if m.version != SCHEMA_VERSION {
            Err(JeffError::InvalidVersion { v: m.version })
        } else if !module_wf(m) {
            Err(JeffError::InvalidFile)
        } else {
            Ok((m, end))
        },
    }
}

/// Checks that all child-region indices of a control-flow operation lie
/// below `n`.
fn check_cf(cf: &ControlFlowData, n: usize) -> (r: bool)
    ensures
        r == cf_refs_ok(cf@, n as int),
{
    match cf {
        ControlFlowData::Switch { branches, default } => {
            let m: usize = branches.len();
            let mut i: usize = 0;
            while i < m
                invariant
                    cf@ == (crate::model::ControlFlowModel::Switch {
                        branches: branches@,
                        default: *default,
                    }),
                    i <= m,
                    m == branches@.len(),
                    forall|j: int| 0 <= j < i ==> (#[trigger] branches@[j] as int) < n as int,
                decreases m - i,
            {
                if branches[i] as usize >= n {
                    proof {
                        assert(!branches_in_range(branches@, n as int)) by {
                            assert((branches@[i as int] as int) >= n as int);
                        }
                    }
                    return false;
                }
                i = i + 1;
            }
            proof {
                assert(branches_in_range(branches@, n as int));
            }
            match default {
                Some(d) => (*d as usize) < n,
                None => true,
            }
        },
        ControlFlowData::For { region } => (*region as usize) < n,
        ControlFlowData::While { condition, body } => (*condition as usize) < n && (*body as usize)
            < n,
        ControlFlowData::DoWhile { body, condition } => (*body as usize) < n && (*condition
            as usize) < n,
    }
}

/// Checks that all child-region indices of an operation type lie below `n`.
fn check_op_type(t: &OpTypeData, n: usize) -> (r: bool)
    ensures
        r == op_type_refs_ok(t@, n as int),
{
    match t {
        OpTypeData::ControlFlowOp(cf) => check_cf(cf, n),
        _ => true,
    }
}

/// Checks that all child-region indices mentioned by a region's operations
/// lie below `n`.
fn check_region(reg: &RegionData, n: usize) -> (r: bool)
    ensures
        r == region_refs_ok(reg@, n as int),
{
    let m: usize = reg.operations.len();
    let mut i: usize = 0;
    while i < m
        invariant
            i <= m,
            m == reg.operations@.len(),
            m == reg@.operations.len(),
            forall|j: int|
                0 <= j < i ==> op_type_refs_ok(#[trigger] reg@.operations[j].op_type, n as int),
    decreases m - i,
    {
        proof {
            assert(reg@.operations[i as int] == reg.operations@[i as int]@);
        }
        if !check_op_type(&reg.operations[i].op_type, n) {
            proof {
                assert(!region_refs_ok(reg@, n as int)) by {
                    assert(!op_type_refs_ok(reg@.operations[i as int].op_type, n as int));
                }
            }
            return false;
        }
        i = i + 1;
    }
    true
}

/// Checks that a function definition has a body region and no dangling
/// region reference.
fn check_def(d: &DefinitionData) -> (r: bool)
    ensures
        r == def_wf(d@),
{
    let n: usize = d.regions.len();
    if n == 0 {
        return false;
    }
    let mut i: usize = 0;
    while i < n
        invariant
            i <= n,
            n == d.regions@.len(),
            n == d@.regions.len(),
            n >= 1,
            forall|j: int|
                0 <= j < i ==> region_refs_ok(#[trigger] d@.regions[j], d@.regions.len() as int),
        decreases n - i,
    {
        proof {
            assert(d@.regions[i as int] == d.regions@[i as int]@);
        }
        if !check_region(&d.regions[i], n) {
            proof {
                assert(!def_wf(d@)) by {
                    assert(!region_refs_ok(d@.regions[i as int], d@.regions.len() as int));
                }
            }
            return false;
        }
        i = i + 1;
    }
    true
}

/// Checks structural well-formedness of a function.
fn check_function(f: &FunctionData) -> (r: bool)
    ensures
        r == function_wf(f@),
{
    match f {
        FunctionData::Definition(d) => check_def(d),
        FunctionData::Declaration(_) => true,
    }
}

/// Checks structural well-formedness of a module.
fn check_module(m: &ModuleData) -> (r: bool)
    ensures
        r == module_wf(m@),
{
    let n: usize = m.functions.len();
    let mut i: usize = 0;
    while i < n
        invariant
            i <= n,
            n == m.functions@.len(),
            n == m@.functions.len(),
            forall|j: int| 0 <= j < i ==> function_wf(#[trigger] m@.functions[j]),
        decreases n - i,
    {
        proof {
            assert(m@.functions[i as int] == m.functions@[i as int]@);
        }
        if !check_function(&m.functions[i]) {
            proof {
                assert(!module_wf(m@)) by {
                    assert(!function_wf(m@.functions[i as int]));
                }
            }
            return false;
        }
        i = i + 1;
    }
    true
}

/// A loaded jeff program.
///
/// Owns the decoded module; [`Jeff::module`] hands out a read-only view
/// over it.
#[derive(Clone, Debug)]
pub struct Jeff {
    /// The decoded module.
    data: ModuleData,
}

impl View for Jeff {
    type V = ModuleModel;

    closed spec fn view(&self) -> ModuleModel {
        self.data@
    }
}

impl Jeff {
    /// Current version of the jeff format.
    pub const VERSION: u32 = SCHEMA_VERSION;

    /// Every function definition of the module has a body region and only
    /// in-range region references. Holds of every loaded program.
    pub open spec fn wf(&self) -> bool {
        module_wf(self@)
    }

    /// Read a jeff program from the front of a slice.
    ///
    /// On success the slice is advanced to the end of the consumed message,
    /// enabling back-to-back messages in one buffer; on failure it is left
    /// unchanged.
    ///
    /// # Errors
    ///
    /// - [`JeffError::InvalidFile`] if the bytes are not a well-formed
    ///   module message.
    /// - [`JeffError::InvalidVersion`] if the message carries a schema
    ///   version other than [`crate::SCHEMA_VERSION`].
    pub fn read_slice(slice: &mut &[u8]) -> (r: Result<Jeff, JeffError>)
        ensures
            (r matches Ok(j) ==> spec_load((*old(slice))@) matches Ok((m, end)) && j@ == m && j.wf()
                && j@.version == SCHEMA_VERSION && (*final (slice))@ == (*old(slice))@.subrange(
                end,
                (*old(slice))@.len() as int,
            )),
            (r matches Err(e) ==> spec_load((*old(slice))@) == Err::<(ModuleModel, int), _>(e)
                && *final (slice) == *old(slice)),
    {
        let bytes: &[u8] = *slice;
        match d_module(bytes, 0) {
            None => Err(JeffError::InvalidFile),
            Some((data, end)) => {
                if data.version != SCHEMA_VERSION {
                    Err(JeffError::InvalidVersion { v: data.version })
                } else if !check_module(&data) {
                    Err(JeffError::InvalidFile)
                } else {
                    *slice = slice_subrange(bytes, end, bytes.len());
                    Ok(Jeff { data })
                }
            },
        }
    }

    /// Read a jeff program from an owned byte buffer.
    ///
    /// Decodes one message from the front of the buffer; bytes past the
    /// message are ignored.
    ///
    /// # Errors
    ///
    /// - [`JeffError::InvalidFile`] if the bytes are not a well-formed
    ///   module message.
    /// - [`JeffError::InvalidVersion`] if the message carries a schema
    ///   version other than [`crate::SCHEMA_VERSION`].
    pub fn read(buffer: Vec<u8>) -> (r: Result<Jeff, JeffError>)
        ensures
            (r matches Ok(j) ==> spec_load(buffer@) matches Ok((m, end)) && j@ == m && j.wf() && j@.version
                == SCHEMA_VERSION),
            (r matches Err(e) ==> spec_load(buffer@) == Err::<(ModuleModel, int), _>(e)),
    {
        match d_module(buffer.as_slice(), 0) {
            None => Err(JeffError::InvalidFile),
            Some((data, end)) => {
                if data.version != SCHEMA_VERSION {
                    Err(JeffError::InvalidVersion { v: data.version })
                } else if !check_module(&data) {
                    Err(JeffError::InvalidFile)
                } else {
                    Ok(Jeff { data })
                }
            },
        }
    }

    /// Returns a read-only view of the loaded module.
    pub fn module<'a>(&'a self) -> (r: Module<'a>)
        requires
            self.wf(),
        ensures
            r@ == self@,
            r.wf(),
    {
        Module::new(&self.data)
    }
}

} // verus!
