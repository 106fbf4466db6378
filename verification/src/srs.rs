//! A spatial reference: the handle of one coordinate reference system that
//! lives in the engine.
//!
//! A [`SpatialRef`] is made from what the engine hands back when it is asked
//! for an object, and it never holds a null handle. An operation that only
//! asks the engine something reads the answer here. An operation that hands a
//! text or a number to the engine first prepares a request, which is declared
//! in [`crate::request`], and the request reads the answer.

use crate::area::{area_outcome, area_view, read_area, AreaOfUse};
use crate::authority::{auth_code_outcome, authority_outcome, read_auth_code, read_authority};
use crate::cint::{c_int, same_bits};
use crate::ctext::{refusal, CText};
use crate::errors::{carried, outcome, ErrorModel, GdalError};
use crate::reply::{
    bytes_of, check_code, code_outcome, coded_outcome, export_outcome, is_true, read_coded,
    read_export, read_text, text_outcome,
};
use crate::request::{
    AttrQuery, AttrUpdate, AxisNameQuery, AxisOrientationQuery, Import, ParamLookup, ParamQuery,
    ParamUpdate, WktDefinition,
};
use vstd::prelude::*;
use vstd::string::StringSliceAdditionalSpecFns;

verus! {

/// What a handle that the engine hands back means: a null handle fails under
/// the name of the operation, any other is kept.
pub open spec fn handle_outcome(raw: usize, method_name: Seq<char>) -> Result<usize, ErrorModel> {
    if raw == 0 {
        Err(ErrorModel::NullPointer { method_name })
    } else {
        Ok(raw)
    }
}

/// The handle of one coordinate reference system in the engine. It is never
/// null. That it is the address of a live object is taken on trust from
/// whoever hands it in: only the caller knows what the engine gave out. It
/// cannot be copied: a second handle to the same object would let the object
/// be released twice. Whether two handles stand for the same system is for
/// the engine to say, see [`SpatialRef::is_same`].
#[derive(Debug)]
pub struct SpatialRef {
    handle: usize,
}

impl View for SpatialRef {
    type V = usize;

    /// The address of the engine's object.
    closed spec fn view(&self) -> usize {
        self.handle
    }
}

impl SpatialRef {
    #[verifier::type_invariant]
    spec fn not_null(self) -> bool {
        self.handle != 0
    }

    fn adopt(raw: usize, method_name: &'static str) -> (r: Result<SpatialRef, GdalError>)
        ensures
            outcome(r) == handle_outcome(raw, method_name@),
    {
        if raw == 0 {
            Err(GdalError::NullPointer { method_name })
        } else {
            Ok(SpatialRef { handle: raw })
        }
    }

    /// Wraps the handle `raw` that the engine handed back when it was asked
    /// for a new, empty object.
    pub fn new(raw: usize) -> (r: Result<SpatialRef, GdalError>)
        ensures
            outcome(r) == handle_outcome(raw, "OSRNewSpatialReference"@),
    {
        Self::adopt(raw, "OSRNewSpatialReference")
    }

    /// Wraps the handle `cloned` that the engine handed back when it was asked
    /// for a copy of an object that somebody else owns.
    pub fn from_c_obj(cloned: usize) -> (r: Result<SpatialRef, GdalError>)
        ensures
            outcome(r) == handle_outcome(cloned, "OSRClone"@),
    {
        Self::adopt(cloned, "OSRClone")
    }

    /// The address of the engine's object.
    pub fn to_c_hsrs(&self) -> (raw: usize)
        ensures
            raw == self@,
            raw != 0,
    {
        proof {
            use_type_invariant(self);
        }
        self.handle
    }

    /// Prepares a definition in any of the forms that the engine knows. The
    /// engine is to take it into a new, empty object; what comes of that is
    /// read by [`Import::read`].
    pub fn from_definition(definition: &str) -> (r: Result<Import, GdalError>)
        ensures
            r is Err <==> definition@.contains('\0'),
            match r {
                Ok(import) => import matches Import::UserInput { definition: text } && text@
                    == definition.spec_bytes(),
                Err(e) => e@ == refusal(definition.spec_bytes()),
            },
    {
        match CText::new(definition) {
            Ok(definition) => Ok(Import::UserInput { definition }),
            Err(e) => Err(e),
        }
    }

    /// Prepares a WKT definition. The engine is to make a new object from
    /// it; the handle that it hands back is read by [`WktDefinition::read`].
    pub fn from_wkt(wkt: &str) -> (r: Result<WktDefinition, GdalError>)
        ensures
            r is Err <==> wkt@.contains('\0'),
            match r {
                Ok(definition) => definition.wkt@ == wkt.spec_bytes(),
                Err(e) => e@ == refusal(wkt.spec_bytes()),
            },
    {
        match CText::new(wkt) {
            Ok(wkt) => Ok(WktDefinition { wkt }),
            Err(e) => Err(e),
        }
    }

    /// Prepares the code under which the registry of the EPSG holds a
    /// definition. The engine is to take that definition into a new, empty
    /// object; what comes of that is read by [`Import::read`]. The code goes
    /// over bit for bit.
    pub fn from_epsg(epsg_code: u32) -> (import: Import)
        ensures
            import matches Import::Epsg { code } && code == same_bits(epsg_code),
    {
        Import::Epsg { code: c_int(epsg_code) }
    }

    /// Prepares a PROJ string. The engine is to take it into a new, empty
    /// object; what comes of that is read by [`Import::read`].
    pub fn from_proj4(proj4_string: &str) -> (r: Result<Import, GdalError>)
        ensures
            r is Err <==> proj4_string@.contains('\0'),
            match r {
                Ok(import) => import matches Import::Proj4 { definition: text } && text@
                    == proj4_string.spec_bytes(),
                Err(e) => e@ == refusal(proj4_string.spec_bytes()),
            },
    {
        match CText::new(proj4_string) {
            Ok(definition) => Ok(Import::Proj4 { definition }),
            Err(e) => Err(e),
        }
    }

    /// Prepares a definition in the ESRI dialect of WKT. The engine is to
    /// take it into a new, empty object; what comes of that is read by
    /// [`Import::read`].
    pub fn from_esri(esri_wkt: &str) -> (r: Result<Import, GdalError>)
        ensures
            r is Err <==> esri_wkt@.contains('\0'),
            match r {
                Ok(import) => import matches Import::Esri { definition: text } && text@
                    == esri_wkt.spec_bytes(),
                Err(e) => e@ == refusal(esri_wkt.spec_bytes()),
            },
    {
        match CText::new(esri_wkt) {
            Ok(definition) => Ok(Import::Esri { definition }),
            Err(e) => Err(e),
        }
    }

    /// Reads the engine's answer to an export as WKT.
    pub fn to_wkt(&self, code: u32, buffer: Option<Vec<u8>>) -> (r: Result<String, GdalError>)
        ensures
            outcome(r) == export_outcome(code, bytes_of(buffer), "OSRExportToWkt"@),
    {
        read_export(code, buffer, "OSRExportToWkt")
    }

    /// Reads the result code with which the engine changed the object to the
    /// conventions of the ESRI dialect.
    pub fn morph_to_esri(&self, code: u32) -> (r: Result<(), GdalError>)
        ensures
            outcome(r) == code_outcome(code, "OSRMorphToESRI"@),
    {
        check_code(code, "OSRMorphToESRI")
    }

    /// Reads the engine's answer to an export as WKT on several lines.
    pub fn to_pretty_wkt(&self, code: u32, buffer: Option<Vec<u8>>) -> (r: Result<
        String,
        GdalError,
    >)
        ensures
            outcome(r) == export_outcome(code, bytes_of(buffer), "OSRExportToPrettyWkt"@),
    {
        read_export(code, buffer, "OSRExportToPrettyWkt")
    }

    /// Reads the engine's answer to an export as XML.
    pub fn to_xml(&self, code: u32, buffer: Option<Vec<u8>>) -> (r: Result<String, GdalError>)
        ensures
            outcome(r) == export_outcome(code, bytes_of(buffer), "OSRExportToXML"@),
    {
        read_export(code, buffer, "OSRExportToXML")
    }

    /// Reads the engine's answer to an export as a PROJ string.
    pub fn to_proj4(&self, code: u32, buffer: Option<Vec<u8>>) -> (r: Result<String, GdalError>)
        ensures
            outcome(r) == export_outcome(code, bytes_of(buffer), "OSRExportToProj4"@),
    {
        read_export(code, buffer, "OSRExportToProj4")
    }

    /// Reads the engine's answer to an export as PROJJSON.
    pub fn to_projjson(&self, code: u32, buffer: Option<Vec<u8>>) -> (r: Result<
        String,
        GdalError,
    >)
        ensures
            outcome(r) == export_outcome(code, bytes_of(buffer), "OSRExportToPROJJSON"@),
    {
        read_export(code, buffer, "OSRExportToPROJJSON")
    }

    /// Reads the engine's answer on the name of the authority of the root
    /// node.
    pub fn auth_name(&self, reply: Option<Vec<u8>>) -> (r: Result<String, GdalError>)
        ensures
            outcome(r) == text_outcome(bytes_of(reply), "OSRGetAuthorityName"@),
    {
        read_text(reply, "OSRGetAuthorityName")
    }

    /// Reads the engine's answer on the code that the authority of the root
    /// node gives to this system, as a number.
    pub fn auth_code(&self, reply: Option<Vec<u8>>) -> (r: Result<i32, GdalError>)
        ensures
            outcome(r) == auth_code_outcome(bytes_of(reply)),
    {
        read_auth_code(reply)
    }

    /// Reads the engine's answers on the authority name and code, and joins
    /// them with a colon: `EPSG:4326`.
    pub fn authority(&self, name: Option<Vec<u8>>, code: Option<Vec<u8>>) -> (r: Result<
        String,
        GdalError,
    >)
        ensures
            outcome(r) == authority_outcome(bytes_of(name), bytes_of(code)),
    {
        read_authority(name, code)
    }

    /// Reads the result code with which the engine looked up the authority
    /// that matches this system and wrote it into the object. The handle
    /// stays the one it was.
    pub fn auto_identify_epsg(&mut self, code: u32) -> (r: Result<(), GdalError>)
        ensures
            final(self)@ == old(self)@,
            outcome(r) == code_outcome(code, "OSRAutoIdentifyEPSG"@),
    {
        check_code(code, "OSRAutoIdentifyEPSG")
    }

    /// Reads the engine's answer on the name of this system.
    pub fn name(&self, reply: Option<Vec<u8>>) -> (r: Result<String, GdalError>)
        ensures
            outcome(r) == text_outcome(bytes_of(reply), "OSRGetName"@),
    {
        read_text(reply, "OSRGetName")
    }

    /// Reads the engine's answer on the name of the angular unit.
    pub fn angular_units_name(&self, reply: Option<Vec<u8>>) -> (r: Result<String, GdalError>)
        ensures
            outcome(r) == text_outcome(bytes_of(reply), "OSRGetAngularUnits"@),
    {
        read_text(reply, "OSRGetAngularUnits")
    }

    /// Reads the engine's answer on the name of the linear unit.
    pub fn linear_units_name(&self, reply: Option<Vec<u8>>) -> (r: Result<String, GdalError>)
        ensures
            outcome(r) == text_outcome(bytes_of(reply), "OSRGetLinearUnits"@),
    {
        read_text(reply, "OSRGetLinearUnits")
    }

    /// Whether the engine said that this system and `other` are the same.
    /// Neither the handles nor any text decide that.
    pub fn is_same(&self, other: &SpatialRef, reply: i32) -> (yes: bool)
        ensures
            yes == (reply == 1),
    {
        is_true(reply)
    }

    /// Whether the engine said that the system is geographic.
    pub fn is_geographic(&self, reply: i32) -> (yes: bool)
        ensures
            yes == (reply == 1),
    {
        is_true(reply)
    }

    /// Whether the engine said that the system is a derived geographic one.
    pub fn is_derived_geographic(&self, reply: i32) -> (yes: bool)
        ensures
            yes == (reply == 1),
    {
        is_true(reply)
    }

    /// Whether the engine said that the system is local.
    pub fn is_local(&self, reply: i32) -> (yes: bool)
        ensures
            yes == (reply == 1),
    {
        is_true(reply)
    }

    /// Whether the engine said that the system is projected.
    pub fn is_projected(&self, reply: i32) -> (yes: bool)
        ensures
            yes == (reply == 1),
    {
        is_true(reply)
    }

    /// Whether the engine said that the system is compound.
    pub fn is_compound(&self, reply: i32) -> (yes: bool)
        ensures
            yes == (reply == 1),
    {
        is_true(reply)
    }

    /// Whether the engine said that the system is geocentric.
    pub fn is_geocentric(&self, reply: i32) -> (yes: bool)
        ensures
            yes == (reply == 1),
    {
        is_true(reply)
    }

    /// Whether the engine said that the system is vertical.
    pub fn is_vertical(&self, reply: i32) -> (yes: bool)
        ensures
            yes == (reply == 1),
    {
        is_true(reply)
    }

    /// Reads the engine's answer on the area of use. `found` is what the
    /// engine returned, the bounds and `name` are what it wrote.
    pub fn area_of_use<D>(
        &self,
        found: i32,
        west: D,
        south: D,
        east: D,
        north: D,
        name: Option<Vec<u8>>,
    ) -> (area: Option<AreaOfUse<D>>)
        ensures
            area_view(area) == area_outcome(found, west, south, east, north, bytes_of(name)),
    {
        read_area(found, west, south, east, north, name)
    }

    /// Prepares the question for the direction of the axis number `axis`
    /// under the node `target_key`. The answer is read by
    /// [`AxisOrientationQuery::read`].
    pub fn axis_orientation(&self, target_key: &str, axis: i32) -> (r: Result<
        AxisOrientationQuery,
        GdalError,
    >)
        ensures
            r is Err <==> target_key@.contains('\0'),
            match r {
                Ok(query) => {
                    &&& query.handle == self@
                    &&& query.handle != 0
                    &&& query.key@ == target_key@
                    &&& query.target_key@ == target_key.spec_bytes()
                    &&& query.axis == axis
                },
                Err(e) => e@ == refusal(target_key.spec_bytes()),
            },
    {
        match CText::new(target_key) {
            Ok(marshaled) => Ok(
                AxisOrientationQuery {
                    handle: self.to_c_hsrs(),
                    key: target_key.to_owned(),
                    target_key: marshaled,
                    axis,
                },
            ),
            Err(e) => Err(e),
        }
    }

    /// Prepares the question for the name of the axis number `axis` under
    /// the node `target_key`. The answer is read by [`AxisNameQuery::read`].
    pub fn axis_name(&self, target_key: &str, axis: i32) -> (r: Result<AxisNameQuery, GdalError>)
        ensures
            r is Err <==> target_key@.contains('\0'),
            match r {
                Ok(query) => {
                    &&& query.handle == self@
                    &&& query.handle != 0
                    &&& query.key@ == target_key@
                    &&& query.target_key@ == target_key.spec_bytes()
                    &&& query.axis == axis
                },
                Err(e) => e@ == refusal(target_key.spec_bytes()),
            },
    {
        match CText::new(target_key) {
            Ok(marshaled) => Ok(
                AxisNameQuery {
                    handle: self.to_c_hsrs(),
                    key: target_key.to_owned(),
                    target_key: marshaled,
                    axis,
                },
            ),
            Err(e) => Err(e),
        }
    }

    /// Reads the engine's answer on the semi-major axis of the ellipsoid. The
    /// result code decides, whatever the number is.
    pub fn semi_major<D>(&self, value: D, code: u32) -> (r: Result<D, GdalError>)
        ensures
            carried(r) == coded_outcome(value, code, "OSRGetSemiMajor"@),
    {
        read_coded(value, code, "OSRGetSemiMajor")
    }

    /// Reads the engine's answer on the semi-minor axis of the ellipsoid. The
    /// result code decides, whatever the number is.
    pub fn semi_minor<D>(&self, value: D, code: u32) -> (r: Result<D, GdalError>)
        ensures
            carried(r) == coded_outcome(value, code, "OSRGetSemiMinor"@),
    {
        read_coded(value, code, "OSRGetSemiMinor")
    }

    /// Prepares the order to set the projection parameter `name` to
    /// `value`. The handle stays the one it was. The engine's result code is
    /// read by [`ParamUpdate::read`].
    pub fn set_proj_param<D>(&mut self, name: &str, value: D) -> (r: Result<
        ParamUpdate<D>,
        GdalError,
    >)
        ensures
            final(self)@ == old(self)@,
            r is Err <==> name@.contains('\0'),
            match r {
                Ok(update) => {
                    &&& update.handle == old(self)@
                    &&& update.handle != 0
                    &&& update.name@ == name.spec_bytes()
                    &&& update.value == value
                },
                Err(e) => e@ == refusal(name.spec_bytes()),
            },
    {
        match CText::new(name) {
            Ok(name) => Ok(ParamUpdate { handle: self.to_c_hsrs(), name, value }),
            Err(e) => Err(e),
        }
    }

    /// Prepares the question for the projection parameter `name`, asked so
    /// that a missing parameter is an error. The answer is read by
    /// [`ParamQuery::read`].
    pub fn get_proj_param(&self, name: &str) -> (r: Result<ParamQuery, GdalError>)
        ensures
            r is Err <==> name@.contains('\0'),
            match r {
                Ok(query) => {
                    &&& query.handle == self@
                    &&& query.handle != 0
                    &&& query.name@ == name.spec_bytes()
                },
                Err(e) => e@ == refusal(name.spec_bytes()),
            },
    {
        match CText::new(name) {
            Ok(name) => Ok(ParamQuery { handle: self.to_c_hsrs(), name }),
            Err(e) => Err(e),
        }
    }

    /// Decides how the projection parameter `name` is looked up when a
    /// missing one is to read as `default`. This never fails. A name that
    /// cannot be handed to the engine settles the matter at once, with
    /// `default`. Any other name goes to the engine together with `default`,
    /// and what the engine then answers is the value.
    pub fn get_proj_param_or_default<D>(&self, name: &str, default: D) -> (lookup: ParamLookup<D>)
        ensures
            name@.contains('\0') ==> lookup == (ParamLookup::Settled { value: default }),
            !name@.contains('\0') ==> (lookup matches ParamLookup::Ask {
                handle,
                name: asked,
                default: given,
            } && handle == self@ && handle != 0 && asked@ == name.spec_bytes() && given
                == default),
    {
        match CText::new(name) {
            Ok(name) => ParamLookup::Ask { handle: self.to_c_hsrs(), name, default },
            Err(_) => ParamLookup::Settled { value: default },
        }
    }

    /// Prepares the order to set the node at `node_path` of the definition
    /// to `new_value`. The path is marshaled first: where both texts hold a
    /// NUL, the error is that of the path. The engine's result code is read
    /// by [`AttrUpdate::read`].
    pub fn set_attr_value(&self, node_path: &str, new_value: &str) -> (r: Result<
        AttrUpdate,
        GdalError,
    >)
        ensures
            r is Err <==> node_path@.contains('\0') || new_value@.contains('\0'),
            match r {
                Ok(update) => {
                    &&& update.handle == self@
                    &&& update.handle != 0
                    &&& update.node_path@ == node_path.spec_bytes()
                    &&& update.new_value@ == new_value.spec_bytes()
                },
                Err(e) => e@ == (if node_path@.contains('\0') {
                    refusal(node_path.spec_bytes())
                } else {
                    refusal(new_value.spec_bytes())
                }),
            },
    {
        match CText::new(node_path) {
            Ok(node_path) => match CText::new(new_value) {
                Ok(new_value) => Ok(AttrUpdate { handle: self.to_c_hsrs(), node_path, new_value }),
                Err(e) => Err(e),
            },
            Err(e) => Err(e),
        }
    }

    /// Prepares the question for the value of the child number `child` of
    /// the node at `node_path` of the definition. The number goes over bit
    /// for bit. The answer is read by [`AttrQuery::read`].
    pub fn get_attr_value(&self, node_path: &str, child: u32) -> (r: Result<AttrQuery, GdalError>)
        ensures
            r is Err <==> node_path@.contains('\0'),
            match r {
                Ok(query) => {
                    &&& query.handle == self@
                    &&& query.handle != 0
                    &&& query.node_path@ == node_path.spec_bytes()
                    &&& query.child == same_bits(child)
                },
                Err(e) => e@ == refusal(node_path.spec_bytes()),
            },
    {
        match CText::new(node_path) {
            Ok(node_path) => Ok(
                AttrQuery { handle: self.to_c_hsrs(), node_path, child: c_int(child) },
            ),
            Err(e) => Err(e),
        }
    }

    /// Wraps the handle `raw` that the engine handed back when it was asked
    /// for a copy of the geographic system that underlies this one.
    pub fn geog_cs(&self, raw: usize) -> (r: Result<SpatialRef, GdalError>)
        ensures
            outcome(r) == handle_outcome(raw, "OSRCloneGeogCS"@),
    {
        Self::adopt(raw, "OSRCloneGeogCS")
    }
}

} // verus!
