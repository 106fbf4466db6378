//! Requests that carry a text or a number to the engine.
//!
//! An operation that hands something to the engine has two halves. The first
//! prepares what goes over, and refuses a text that cannot go; it gives one of
//! the requests declared here. The second is the `read` of that request: it
//! takes what the engine answered and says what the answer is worth.

use crate::axis::AxisOrientationType;
use crate::ctext::CText;
use crate::errors::{carried, outcome, ErrorModel, GdalError, OGRERR_NONE};
use crate::reply::{
    bytes_of, check_code, code_outcome, coded_outcome, decode, decode_outcome, read_coded,
    read_text, text_outcome,
};
use crate::srs::{handle_outcome, SpatialRef};
use vstd::prelude::*;

verus! {

/// What the engine's answer on an axis means for its name. A null reference
/// says that there is no such axis under the node `key`.
pub open spec fn axis_name_outcome(key: Seq<char>, reply: Option<Seq<u8>>) -> Result<
    Seq<char>,
    ErrorModel,
> {
    match reply {
        None => Err(ErrorModel::AxisNotFoundError { key, method_name: "OSRGetAxis"@ }),
        Some(bytes) => decode_outcome(bytes),
    }
}

/// What the engine's answer on an axis means for its direction.
pub open spec fn axis_orientation_outcome(key: Seq<char>, found: bool, orientation: u32) -> Result<
    AxisOrientationType,
    ErrorModel,
> {
    if found {
        Ok(AxisOrientationType::of_code(orientation))
    } else {
        Err(ErrorModel::AxisNotFoundError { key, method_name: "OSRGetAxis"@ })
    }
}

/// An axis that the engine does not find is reported as not found, with the
/// node that was asked for, whether the name or the direction was wanted and
/// whatever the engine left in the place for the direction.
pub proof fn lemma_unknown_axis_fails(key: Seq<char>, orientation: u32)
    ensures
        axis_name_outcome(key, None) == Err::<Seq<char>, ErrorModel>(
            ErrorModel::AxisNotFoundError { key, method_name: "OSRGetAxis"@ },
        ),
        axis_orientation_outcome(key, false, orientation) == Err::<AxisOrientationType, ErrorModel>(
            ErrorModel::AxisNotFoundError { key, method_name: "OSRGetAxis"@ },
        ),
{
}

/// A definition that the engine is to take into a new, empty object.
#[derive(Debug)]
pub enum Import {
    /// A definition in any of the forms that the engine knows.
    UserInput { definition: CText },
    /// The definition that the registry of the EPSG holds under `code`.
    Epsg { code: i32 },
    /// A PROJ string.
    Proj4 { definition: CText },
    /// A definition in the ESRI dialect of WKT. The engine takes it as a list
    /// of lines, of which this is the only one.
    Esri { definition: CText },
}

/// An object that was not kept: the engine is to release the object at
/// `handle`, and the caller gets `error`.
#[derive(Debug)]
pub struct Rejected {
    pub handle: usize,
    pub error: GdalError,
}

impl Import {
    /// The name of the engine's function that takes this definition.
    pub open spec fn method_name_of(&self) -> Seq<char> {
        match self {
            Import::UserInput { .. } => "OSRSetFromUserInput"@,
            Import::Epsg { .. } => "OSRImportFromEPSG"@,
            Import::Proj4 { .. } => "OSRImportFromProj4"@,
            Import::Esri { .. } => "OSRImportFromESRI"@,
        }
    }

    /// The name of the engine's function that takes this definition.
    pub fn method_name(&self) -> (name: &'static str)
        ensures
            name@ == self.method_name_of(),
    {
        match self {
            Import::UserInput { .. } => "OSRSetFromUserInput",
            Import::Epsg { .. } => "OSRImportFromEPSG",
            Import::Proj4 { .. } => "OSRImportFromProj4",
            Import::Esri { .. } => "OSRImportFromESRI",
        }
    }

    /// Reads the result code with which the engine took this definition into
    /// the empty object `fresh`. The object is kept exactly if the engine
    /// reports success. Otherwise it is handed back for release, together
    /// with the error: no object stays behind half made.
    pub fn read(&self, fresh: SpatialRef, code: u32) -> (r: Result<SpatialRef, Rejected>)
        ensures
            code == OGRERR_NONE ==> (r matches Ok(kept) && kept@ == fresh@),
            code != OGRERR_NONE ==> (r matches Err(rejected) && rejected.handle == fresh@
                && rejected.handle != 0 && rejected.error@ == (ErrorModel::OgrError {
                err: code,
                method_name: self.method_name_of(),
            })),
    {
        if code != OGRERR_NONE {
            Err(
                Rejected {
                    handle: fresh.to_c_hsrs(),
                    error: GdalError::OgrError { err: code, method_name: self.method_name() },
                },
            )
        } else {
            Ok(fresh)
        }
    }
}

/// A WKT definition from which the engine is to make a new object.
#[derive(Debug)]
pub struct WktDefinition {
    pub wkt: CText,
}

impl WktDefinition {
    /// Wraps the handle `raw` that the engine handed back for this
    /// definition. The engine reports a definition that it cannot read by a
    /// null handle.
    pub fn read(&self, raw: usize) -> (r: Result<SpatialRef, GdalError>)
        ensures
            outcome(r) == handle_outcome(raw, "OSRNewSpatialReference"@),
    {
        SpatialRef::new(raw)
    }
}

/// A question about the name of one axis of the object at `handle`: the axis
/// number `axis` under the node `key` of the definition.
#[derive(Debug)]
pub struct AxisNameQuery {
    pub handle: usize,
    /// The node, as the caller wrote it.
    pub key: String,
    /// The node, as the engine takes it.
    pub target_key: CText,
    pub axis: i32,
}

impl AxisNameQuery {
    /// Reads the engine's answer: a reference to the name, or a null
    /// reference where there is no such axis.
    pub fn read(&self, reply: Option<Vec<u8>>) -> (r: Result<String, GdalError>)
        ensures
            outcome(r) == axis_name_outcome(self.key@, bytes_of(reply)),
    {
        match reply {
            None => Err(
                GdalError::AxisNotFoundError { key: self.key.clone(), method_name: "OSRGetAxis" },
            ),
            Some(bytes) => decode(bytes),
        }
    }
}

/// A question about the direction of one axis of the object at `handle`: the
/// axis number `axis` under the node `key` of the definition.
#[derive(Debug)]
pub struct AxisOrientationQuery {
    pub handle: usize,
    /// The node, as the caller wrote it.
    pub key: String,
    /// The node, as the engine takes it.
    pub target_key: CText,
    pub axis: i32,
}

impl AxisOrientationQuery {
    /// Reads the engine's answer. `found` says whether the engine returned a
    /// reference that is not null, and `orientation` is the code that it
    /// wrote for the direction.
    pub fn read(&self, found: bool, orientation: u32) -> (r: Result<
        AxisOrientationType,
        GdalError,
    >)
        ensures
            carried(r) == axis_orientation_outcome(self.key@, found, orientation),
    {
        if found {
            Ok(AxisOrientationType::from_code(orientation))
        } else {
            Err(GdalError::AxisNotFoundError { key: self.key.clone(), method_name: "OSRGetAxis" })
        }
    }
}

/// A question about the projection parameter `name` of the object at
/// `handle`, asked so that the engine says whether there is one.
#[derive(Debug)]
pub struct ParamQuery {
    pub handle: usize,
    pub name: CText,
}

impl ParamQuery {
    /// Reads the engine's answer. The result code decides: on failure the
    /// number, which is then whatever the engine was given to fall back on,
    /// is not shown.
    pub fn read<D>(&self, value: D, code: u32) -> (r: Result<D, GdalError>)
        ensures
            carried(r) == coded_outcome(value, code, "OSRGetProjParm"@),
    {
        read_coded(value, code, "OSRGetProjParm")
    }
}

/// How a projection parameter is looked up when a missing one is to read as
/// a default.
#[derive(Debug)]
pub enum ParamLookup<D> {
    /// The engine is to be asked for the parameter `name` of the object at
    /// `handle`, and told to answer `default` where there is none. What it
    /// answers is the value.
    Ask { handle: usize, name: CText, default: D },
    /// The engine is not asked: the value is `value`.
    Settled { value: D },
}

/// The order to set the projection parameter `name` of the object at
/// `handle` to `value`.
#[derive(Debug)]
pub struct ParamUpdate<D> {
    pub handle: usize,
    pub name: CText,
    pub value: D,
}

impl<D> ParamUpdate<D> {
    /// Reads the result code with which the engine set the parameter.
    pub fn read(&self, code: u32) -> (r: Result<(), GdalError>)
        ensures
            outcome(r) == code_outcome(code, "OSRSetProjParm"@),
    {
        check_code(code, "OSRSetProjParm")
    }
}

/// The order to set the node at `node_path` of the definition of the object
/// at `handle` to `new_value`.
#[derive(Debug)]
pub struct AttrUpdate {
    pub handle: usize,
    pub node_path: CText,
    pub new_value: CText,
}

impl AttrUpdate {
    /// Reads the result code with which the engine set the node.
    pub fn read(&self, code: u32) -> (r: Result<(), GdalError>)
        ensures
            outcome(r) == code_outcome(code, "OSRSetAttrValue"@),
    {
        check_code(code, "OSRSetAttrValue")
    }
}

/// A question about the value of the child number `child` of the node at
/// `node_path` of the definition of the object at `handle`.
#[derive(Debug)]
pub struct AttrQuery {
    pub handle: usize,
    pub node_path: CText,
    pub child: i32,
}

impl AttrQuery {
    /// Reads the engine's answer: a reference to the value, or a null
    /// reference where the path or the child leads nowhere.
    pub fn read(&self, reply: Option<Vec<u8>>) -> (r: Result<String, GdalError>)
        ensures
            outcome(r) == text_outcome(bytes_of(reply), "OSRGetAttrValue"@),
    {
        read_text(reply, "OSRGetAttrValue")
    }
}

} // verus!
