//! The monitor registry: display geometry and identifier resolution.
//!
//! Displays are enumerated fresh on every lookup by the caller that owns the
//! OS display handle; this module resolves a stable identifier against one
//! such enumeration snapshot and never substitutes a default on a miss.

use vstd::prelude::*;

use crate::errors::Error;
use crate::text::str_eq;

verus! {

/// Geometry of one physical display, as one enumeration snapshot reports it.
///
/// `x` and `y` are the global desktop coordinates of the top-left origin in
/// signed device pixels; `width` and `height` are the extent in device
/// pixels. The device-pixel-ratio the OS reports for a display is fractional
/// and is truncated to a whole number at the boundary before the capture
/// pipeline uses it, so it travels beside this record, not in it.
#[derive(Debug)]
pub struct Monitor {
    /// Opaque stable identifier, unique within one enumeration snapshot.
    pub id: String,
    /// Whether the OS marks this display as the primary one.
    pub is_primary: bool,
    /// Human-readable display name.
    pub name: String,
    /// Width in device pixels.
    pub width: u32,
    /// Height in device pixels.
    pub height: u32,
    /// Global desktop x coordinate of the top-left origin.
    pub x: i32,
    /// Global desktop y coordinate of the top-left origin.
    pub y: i32,
}

/// Whether some monitor of the snapshot carries the identifier.
pub open spec fn has_monitor(ms: Seq<Monitor>, id: Seq<char>) -> bool {
    exists|i: int| 0 <= i < ms.len() && ms[i].id@ == id
}

/// The position of the first monitor of the snapshot that carries the
/// identifier.
pub fn find_monitor(monitors: &Vec<Monitor>, id: &str) -> (r: Result<usize, Error>)
    ensures
        r is Ok <==> has_monitor(monitors@, id@),
        r matches Ok(i) ==> i < monitors@.len() && monitors@[i as int].id@ == id@
            && forall|j: int| 0 <= j < i ==> monitors@[j].id@ != id@,
        r matches Err(e) ==> e is NotFound,
{
    let mut i: usize = 0;
    while i < monitors.len()
        invariant
            i <= monitors@.len(),
            forall|j: int| 0 <= j < i ==> monitors@[j].id@ != id@,
        decreases monitors@.len() - i,
    {
        if str_eq(monitors[i].id.as_str(), id) {
            return Ok(i);
        }
        i = i + 1;
    }
    Err(Error::NotFound)
}

/// Resolves an identifier against one enumeration snapshot, handing out the
/// first matching monitor and consuming the snapshot.
///
/// An identifier no monitor of the snapshot carries fails with `NotFound`;
/// no default is ever substituted.
pub fn resolve_monitor(monitors: Vec<Monitor>, id: &str) -> (r: Result<Monitor, Error>)
    ensures
        r is Ok <==> has_monitor(monitors@, id@),
        r matches Ok(m) ==> exists|i: int|
            0 <= i < monitors@.len() && m == monitors@[i] && m.id@ == id@
                && forall|j: int| 0 <= j < i ==> monitors@[j].id@ != id@,
        r matches Err(e) ==> e is NotFound,
{
    let mut monitors = monitors;
    match find_monitor(&monitors, id) {
        Ok(i) => Ok(monitors.remove(i)),
        Err(e) => Err(e),
    }
}

} // verus!
