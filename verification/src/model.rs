//! The typed domain records a reply payload decodes into, and the structural
//! decoding itself: field names and types must match exactly, unknown fields
//! are ignored, and a missing or mistyped required field is a
//! `Serialisation` failure.

use vstd::prelude::*;
use crate::error::Error;
use crate::json::{get_field, as_bool, as_u64, as_string, as_array, as_number};

verus! {

/// One display timing configuration: width and height in pixels, refresh
/// rate in thousandths of Hz.  Two modes are equal exactly when all three
/// fields are.
#[derive(Debug, Clone, Copy, PartialEq, Eq, Structural)]
pub struct Mode {
    pub width: u32,
    pub height: u32,
    pub refresh: u32,
}

/// A rectangle of the protocol's type family: position and size.
#[derive(Debug, Clone, Copy, PartialEq, Eq, Structural)]
pub struct Rect {
    pub x: u32,
    pub y: u32,
    pub width: u32,
    pub height: u32,
}

/// A display output the peer exposes, with its supported and current modes.
/// The scale factor is carried through opaquely as the JSON number the peer
/// sent; nothing in this crate computes with it.
#[derive(Debug)]
pub struct Output {
    pub active: bool,
    pub id: u32,
    pub name: String,
    pub modes: Vec<Mode>,
    pub make: String,
    pub model: String,
    pub serial: String,
    pub scale: serde_json::Number,
    pub transform: String,
    pub current_mode: Mode,
}

/// A value decodable from one structured payload value.  Every decoding
/// failure is a `Serialisation` error.
pub trait FromJson: Sized {
    /// Decodes one payload value into `Self`.
    fn from_json(v: &serde_json::Value) -> (r: Result<Self, Error>)
        ensures
            r is Err ==> r->Err_0 is Serialisation,
    ;
}

/// Whether the extracted fields of a mode object are all present and fit
/// the record.
pub open spec fn mode_fields_ok(width: Option<u64>, height: Option<u64>, refresh: Option<u64>) -> bool {
    &&& width matches Some(w) && w <= u32::MAX
    &&& height matches Some(h) && h <= u32::MAX
    &&& refresh matches Some(f) && f <= u32::MAX
}

/// Builds a `Mode` from its extracted fields: exactly when all three are
/// present integers in range, the record is built from them; otherwise the
/// result is a `Serialisation` failure.
pub fn build_mode(width: Option<u64>, height: Option<u64>, refresh: Option<u64>) -> (r: Result<
    Mode,
    Error,
>)
    ensures
        mode_fields_ok(width, height, refresh) ==> (r matches Ok(m) && Some(m.width as u64)
            == width && Some(m.height as u64) == height && Some(m.refresh as u64) == refresh),
        !mode_fields_ok(width, height, refresh) ==> (r matches Err(e) && e is Serialisation),
{
    let w = match width {
        Some(w) => w,
        None => {
            return Err(mode_error());
        },
    };
    let h = match height {
        Some(h) => h,
        None => {
            return Err(mode_error());
        },
    };
    let f = match refresh {
        Some(f) => f,
        None => {
            return Err(mode_error());
        },
    };
    if w > u32::MAX as u64 || h > u32::MAX as u64 || f > u32::MAX as u64 {
        return Err(mode_error());
    }
    Ok(Mode { width: w as u32, height: h as u32, refresh: f as u32 })
}

/// The failure reported when a mode object is not shaped as required.
fn mode_error() -> (e: Error)
    ensures
        e is Serialisation,
{
    Error::Serialisation("a mode needs integer width, height and refresh fields".to_owned())
}

/// Whether the extracted fields of a rectangle object are all present and
/// fit the record.
pub open spec fn rect_fields_ok(x: Option<u64>, y: Option<u64>, width: Option<u64>, height: Option<u64>) -> bool {
    &&& x matches Some(a) && a <= u32::MAX
    &&& y matches Some(b) && b <= u32::MAX
    &&& width matches Some(w) && w <= u32::MAX
    &&& height matches Some(h) && h <= u32::MAX
}

/// Builds a `Rect` from its extracted fields, exactly when all four are
/// present integers in range.
pub fn build_rect(x: Option<u64>, y: Option<u64>, width: Option<u64>, height: Option<u64>) -> (r:
    Result<Rect, Error>)
    ensures
        rect_fields_ok(x, y, width, height) ==> (r matches Ok(c) && Some(c.x as u64) == x && Some(
            c.y as u64,
        ) == y && Some(c.width as u64) == width && Some(c.height as u64) == height),
        !rect_fields_ok(x, y, width, height) ==> (r matches Err(e) && e is Serialisation),
{
    let a = match x {
        Some(a) => a,
        None => {
            return Err(rect_error());
        },
    };
    let b = match y {
        Some(b) => b,
        None => {
            return Err(rect_error());
        },
    };
    let w = match width {
        Some(w) => w,
        None => {
            return Err(rect_error());
        },
    };
    let h = match height {
        Some(h) => h,
        None => {
            return Err(rect_error());
        },
    };
    if a > u32::MAX as u64 || b > u32::MAX as u64 || w > u32::MAX as u64 || h > u32::MAX as u64 {
        return Err(rect_error());
    }
    Ok(Rect { x: a as u32, y: b as u32, width: w as u32, height: h as u32 })
}

/// The failure reported when a rectangle object is not shaped as required.
fn rect_error() -> (e: Error)
    ensures
        e is Serialisation,
{
    Error::Serialisation("a rectangle needs integer x, y, width and height fields".to_owned())
}

/// Whether the extracted fields of an output object are all present, with
/// the identifier in range.
pub open spec fn output_fields_ok(
    active: Option<bool>,
    id: Option<u64>,
    name: Option<String>,
    modes: Option<Vec<Mode>>,
    make: Option<String>,
    model: Option<String>,
    serial: Option<String>,
    scale: Option<serde_json::Number>,
    transform: Option<String>,
    current_mode: Option<Mode>,
) -> bool {
    &&& active is Some
    &&& id matches Some(i) && i <= u32::MAX
    &&& name is Some
    &&& modes is Some
    &&& make is Some
    &&& model is Some
    &&& serial is Some
    &&& scale is Some
    &&& transform is Some
    &&& current_mode is Some
}

/// Builds an `Output` from its extracted fields: exactly when every required
/// field is present and the identifier fits, the record carries those values
/// unchanged; otherwise the result is a `Serialisation` failure.
pub fn build_output(
    active: Option<bool>,
    id: Option<u64>,
    name: Option<String>,
    modes: Option<Vec<Mode>>,
    make: Option<String>,
    model: Option<String>,
    serial: Option<String>,
    scale: Option<serde_json::Number>,
    transform: Option<String>,
    current_mode: Option<Mode>,
) -> (r: Result<Output, Error>)
    ensures
        output_fields_ok(active, id, name, modes, make, model, serial, scale, transform, current_mode)
            ==> (r matches Ok(o) && Some(o.active) == active && Some(o.id as u64) == id && (
        name matches Some(nm) && o.name@ == nm@) && (modes matches Some(ms) && o.modes@ == ms@) && (
        make matches Some(mk) && o.make@ == mk@) && (model matches Some(md) && o.model@ == md@) && (
        serial matches Some(sr) && o.serial@ == sr@) && Some(o.scale) == scale && (
        transform matches Some(tr) && o.transform@ == tr@) && Some(o.current_mode) == current_mode),
        !output_fields_ok(active, id, name, modes, make, model, serial, scale, transform, current_mode)
            ==> (r matches Err(e) && e is Serialisation),
{
    let av = match active {
        Some(v) => v,
        None => {
            return Err(output_error());
        },
    };
    let iv = match id {
        Some(v) => v,
        None => {
            return Err(output_error());
        },
    };
    if iv > u32::MAX as u64 {
        return Err(output_error());
    }
    let nm = match name {
        Some(v) => v,
        None => {
            return Err(output_error());
        },
    };
    let ms = match modes {
        Some(v) => v,
        None => {
            return Err(output_error());
        },
    };
    let mk = match make {
        Some(v) => v,
        None => {
            return Err(output_error());
        },
    };
    let md = match model {
        Some(v) => v,
        None => {
            return Err(output_error());
        },
    };
    let sr = match serial {
        Some(v) => v,
        None => {
            return Err(output_error());
        },
    };
    let sc = match scale {
        Some(v) => v,
        None => {
            return Err(output_error());
        },
    };
    let tr = match transform {
        Some(v) => v,
        None => {
            return Err(output_error());
        },
    };
    let cm = match current_mode {
        Some(v) => v,
        None => {
            return Err(output_error());
        },
    };
    Ok(
        Output {
            active: av,
            id: iv as u32,
            name: nm,
            modes: ms,
            make: mk,
            model: md,
            serial: sr,
            scale: sc,
            transform: tr,
            current_mode: cm,
        },
    )
}

/// The failure reported when an output object lacks a required field.
fn output_error() -> (e: Error)
    ensures
        e is Serialisation,
{
    Error::Serialisation("an output object lacks a required field".to_owned())
}

/// The value at a key, read as a boolean.
fn bool_field(v: &serde_json::Value, key: &str) -> Option<bool> {
    match get_field(v, key) {
        Some(f) => as_bool(&f),
        None => None,
    }
}

/// The value at a key, read as a non-negative integer.
fn u64_field(v: &serde_json::Value, key: &str) -> Option<u64> {
    match get_field(v, key) {
        Some(f) => as_u64(&f),
        None => None,
    }
}

/// The value at a key, read as text.
fn string_field(v: &serde_json::Value, key: &str) -> Option<String> {
    match get_field(v, key) {
        Some(f) => as_string(&f),
        None => None,
    }
}

/// The value at a key, read as a number.
fn number_field(v: &serde_json::Value, key: &str) -> Option<serde_json::Number> {
    match get_field(v, key) {
        Some(f) => as_number(&f),
        None => None,
    }
}

impl FromJson for Mode {
    fn from_json(v: &serde_json::Value) -> (r: Result<Mode, Error>) {
        build_mode(u64_field(v, "width"), u64_field(v, "height"), u64_field(v, "refresh"))
    }
}

impl FromJson for Rect {
    fn from_json(v: &serde_json::Value) -> (r: Result<Rect, Error>) {
        build_rect(
            u64_field(v, "x"),
            u64_field(v, "y"),
            u64_field(v, "width"),
            u64_field(v, "height"),
        )
    }
}

impl FromJson for Output {
    fn from_json(v: &serde_json::Value) -> (r: Result<Output, Error>) {
        // A present but malformed nested value fails with its own
        // diagnostic; only an absent one is left for `build_output` to
        // report as missing.
        let modes = match get_field(v, "modes") {
            Some(f) => match <Vec<Mode> as FromJson>::from_json(&f) {
                Ok(ms) => Some(ms),
                Err(e) => {
                    return Err(e);
                },
            },
            None => None,
        };
        let current_mode = match get_field(v, "current_mode") {
            Some(f) => match Mode::from_json(&f) {
                Ok(m) => Some(m),
                Err(e) => {
                    return Err(e);
                },
            },
            None => None,
        };
        build_output(
            bool_field(v, "active"),
            u64_field(v, "id"),
            string_field(v, "name"),
            modes,
            string_field(v, "make"),
            string_field(v, "model"),
            string_field(v, "serial"),
            number_field(v, "scale"),
            string_field(v, "transform"),
            current_mode,
        )
    }
}

/// Decodes the elements of a payload array, in order.  A success holds
/// exactly one record per array element — none dropped, none invented — and
/// each record is a result that decoding its own element admits; the first
/// element that fails to decode fails the whole array with its own
/// diagnostic.
pub fn decode_elements<T: FromJson>(arr: &Vec<serde_json::Value>) -> (r: Result<Vec<T>, Error>)
    ensures
        r matches Ok(out) ==> out@.len() == arr@.len() && forall|i: int|
            0 <= i < arr@.len() ==> call_ensures(T::from_json, (&arr@[i],), Ok(#[trigger] out@[i])),
        r matches Err(e) ==> e is Serialisation,
{
    let mut out: Vec<T> = Vec::new();
    let mut i: usize = 0;
    while i < arr.len()
        invariant
            i <= arr@.len(),
            out@.len() == i,
            forall|k: int|
                0 <= k < i ==> call_ensures(T::from_json, (&arr@[k],), Ok(#[trigger] out@[k])),
        decreases arr@.len() - i,
    {
        match T::from_json(&arr[i]) {
            Ok(x) => out.push(x),
            Err(e) => {
                return Err(e);
            },
        }
        i += 1;
    }
    Ok(out)
}

impl<T: FromJson> FromJson for Vec<T> {
    /// An ordered sequence decodes element by element; anything but an array
    /// is rejected.
    fn from_json(v: &serde_json::Value) -> (r: Result<Vec<T>, Error>) {
        let arr = match as_array(v) {
            Some(a) => a,
            None => {
                return Err(Error::Serialisation("expected a JSON array".to_owned()));
            },
        };
        decode_elements::<T>(&arr)
    }
}

} // verus!
