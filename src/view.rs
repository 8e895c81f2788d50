//! The two hexadecimal views and the extension trait that builds them.
use vstd::prelude::*;

use crate::text::{hex_text, render_into};

verus! {

/// What a view is: the bytes it borrows and the case it renders them in.
pub struct HexModel {
    pub bytes: Seq<u8>,
    pub upper: bool,
}

impl HexModel {
    /// The same bytes, tagged upper-case.
    pub open spec fn to_upper(self) -> HexModel {
        HexModel { bytes: self.bytes, upper: true }
    }

    /// The same bytes, tagged lower-case.
    pub open spec fn to_lower(self) -> HexModel {
        HexModel { bytes: self.bytes, upper: false }
    }

    /// The text this view renders to.
    pub open spec fn render(self) -> Seq<char> {
        hex_text(self.bytes, self.upper)
    }
}

/// A byte slice rendered as lower-case hexadecimal text.
///
/// See [`HexDisplayExt`] for an easier way of building one.
pub struct Hex<'a>(
    /// The bytes to be rendered.
    pub &'a [u8],
);

/// A byte slice rendered as upper-case hexadecimal text.
pub struct UpperHex<'a>(
    /// The bytes to be rendered.
    pub &'a [u8],
);

impl<'a> View for Hex<'a> {
    type V = HexModel;

    open spec fn view(&self) -> HexModel {
        HexModel { bytes: self.0@, upper: false }
    }
}

impl<'a> View for UpperHex<'a> {
    type V = HexModel;

    open spec fn view(&self) -> HexModel {
        HexModel { bytes: self.0@, upper: true }
    }
}

impl<'a> Hex<'a> {
    /// Converts to the upper-case view of the same bytes.
    pub fn upper(self) -> (r: UpperHex<'a>)
        ensures
            r@ == self@.to_upper(),
    {
        UpperHex(self.0)
    }

    /// Converts to the lower-case view: the view itself.
    pub fn lower(self) -> (r: Self)
        ensures
            r@ == self@.to_lower(),
            r@ == self@,
    {
        self
    }

    /// Appends the text of this view to `out`.
    pub fn write_to(&self, out: &mut String)
        ensures
            final(out)@ == old(out)@ + self@.render(),
    {
        render_into(self.0, false, out);
    }

    /// The text of this view, as an owned string.
    pub fn to_string(&self) -> (r: String)
        ensures
            r@ == self@.render(),
    {
        let mut out = String::new();
        self.write_to(&mut out);
        out
    }
}

impl<'a> UpperHex<'a> {
    /// Converts to the upper-case view: the view itself.
    pub fn upper(self) -> (r: Self)
        ensures
            r@ == self@.to_upper(),
            r@ == self@,
    {
        self
    }

    /// Converts to the lower-case view of the same bytes.
    pub fn lower(self) -> (r: Hex<'a>)
        ensures
            r@ == self@.to_lower(),
    {
        Hex(self.0)
    }

    /// Appends the text of this view to `out`.
    pub fn write_to(&self, out: &mut String)
        ensures
            final(out)@ == old(out)@ + self@.render(),
    {
        render_into(self.0, true, out);
    }

    /// The text of this view, as an owned string.
    pub fn to_string(&self) -> (r: String)
        ensures
            r@ == self@.render(),
    {
        let mut out = String::new();
        self.write_to(&mut out);
        out
    }
}

/// Builds hexadecimal views directly from a byte container.
pub trait HexDisplayExt {
    /// The bytes that the views of this value borrow.
    spec fn hex_bytes(&self) -> Seq<u8>;

    /// The lower-case view of these bytes.
    fn hex(&self) -> (r: Hex<'_>)
        ensures
            r@ == (HexModel { bytes: self.hex_bytes(), upper: false }),
    ;

    /// The upper-case view of these bytes.
    fn upper_hex(&self) -> (r: UpperHex<'_>)
        ensures
            r@ == (HexModel { bytes: self.hex_bytes(), upper: true }),
    {
        self.hex().upper()
    }

    /// The lower-case text of these bytes, as an owned string.
    fn hex_string(&self) -> (r: String)
        ensures
            r@ == hex_text(self.hex_bytes(), false),
    {
        self.hex().to_string()
    }

    /// The upper-case text of these bytes, as an owned string.
    fn upper_hex_string(&self) -> (r: String)
        ensures
            r@ == hex_text(self.hex_bytes(), true),
    {
        self.upper_hex().to_string()
    }
}

impl HexDisplayExt for [u8] {
    open spec fn hex_bytes(&self) -> Seq<u8> {
        self@
    }

    fn hex(&self) -> (r: Hex<'_>) {
        Hex(self)
    }
}

impl<const N: usize> HexDisplayExt for [u8; N] {
    open spec fn hex_bytes(&self) -> Seq<u8> {
        self@
    }

    fn hex(&self) -> (r: Hex<'_>) {
        Hex(self)
    }
}

/// Case conversion keeps the bytes: converting to lower case and then to
/// upper case renders as converting to upper case directly, and the other
/// way round; converting twice to the same case is converting once.
pub proof fn lemma_case_round_trip(v: HexModel)
    ensures
        v.to_lower().to_upper().render() == v.to_upper().render(),
        v.to_upper().to_lower().render() == v.to_lower().render(),
        v.to_upper().to_upper() == v.to_upper(),
        v.to_lower().to_lower() == v.to_lower(),
{
}

} // verus!
