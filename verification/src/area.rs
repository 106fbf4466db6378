//! The area within which a coordinate reference system is valid.

use crate::reply::{bytes_of, decode, is_true};
use vstd::prelude::*;
use vstd::utf8::{decode_utf8, valid_utf8};

verus! {

/// The bounding area within which a coordinate reference system is valid:
/// four bounds in degrees and a name. The bounds are carried as the engine
/// gave them; `D` is the type that holds one of them.
#[derive(Debug, Clone)]
pub struct AreaOfUse<D> {
    pub west_lon_degree: D,
    pub south_lat_degree: D,
    pub east_lon_degree: D,
    pub north_lat_degree: D,
    pub name: String,
}

/// An [`AreaOfUse`] with its name as a sequence of characters.
pub struct AreaModel<D> {
    pub west_lon_degree: D,
    pub south_lat_degree: D,
    pub east_lon_degree: D,
    pub north_lat_degree: D,
    pub name: Seq<char>,
}

impl<D> View for AreaOfUse<D> {
    type V = AreaModel<D>;

    open spec fn view(&self) -> AreaModel<D> {
        AreaModel {
            west_lon_degree: self.west_lon_degree,
            south_lat_degree: self.south_lat_degree,
            east_lon_degree: self.east_lon_degree,
            north_lat_degree: self.north_lat_degree,
            name: self.name@,
        }
    }
}

/// The name of an area: the text that the engine gave, or the empty text
/// where it gave none or gave bytes that are no text.
pub open spec fn area_name(name: Option<Seq<u8>>) -> Seq<char> {
    match name {
        Some(bytes) => if valid_utf8(bytes) {
            decode_utf8(bytes)
        } else {
            Seq::empty()
        },
        None => Seq::empty(),
    }
}

/// What the engine's answer on the area of use means. The area is there
/// exactly if the engine said 1.
pub open spec fn area_outcome<D>(
    found: i32,
    west: D,
    south: D,
    east: D,
    north: D,
    name: Option<Seq<u8>>,
) -> Option<AreaModel<D>> {
    if found == 1 {
        Some(
            AreaModel {
                west_lon_degree: west,
                south_lat_degree: south,
                east_lon_degree: east,
                north_lat_degree: north,
                name: area_name(name),
            },
        )
    } else {
        None
    }
}

/// The model of an optional area.
pub open spec fn area_view<D>(area: Option<AreaOfUse<D>>) -> Option<AreaModel<D>> {
    match area {
        Some(a) => Some(a@),
        None => None,
    }
}

/// Reads the engine's answer on the area of use. `found` is what the engine
/// returned, the bounds and `name` are what it wrote. The area is there
/// exactly if the engine returned 1. The bounds are carried as they are; a
/// name that is missing or is no text reads as the empty name.
pub fn read_area<D>(found: i32, west: D, south: D, east: D, north: D, name: Option<Vec<u8>>) -> (area:
    Option<AreaOfUse<D>>)
    ensures
        area_view(area) == area_outcome(found, west, south, east, north, bytes_of(name)),
{
    if is_true(found) {
        let name = match name {
            Some(bytes) => match decode(bytes) {
                Ok(text) => text,
                Err(_) => String::new(),
            },
            None => String::new(),
        };
        Some(
            AreaOfUse {
                west_lon_degree: west,
                south_lat_degree: south,
                east_lon_degree: east,
                north_lat_degree: north,
                name,
            },
        )
    } else {
        None
    }
}

} // verus!
