//! The host's document object, and the scoped reference a plugin works
//! through.

use crate::page::PageRef;
use std::str::Utf8Error;
use vstd::prelude::*;
use vstd::string::StringSliceAdditionalSpecFns;
use vstd::utf8::valid_utf8;

verus! {

/// The error of a text field that is present but is not valid UTF-8:
/// `core::str::Utf8Error`, carried through as an opaque value.
#[verifier::external_type_specification]
#[verifier::external_body]
pub struct ExUtf8Error(Utf8Error);

/// A real value as the host stores it: the bit pattern of an IEEE-754
/// double. The library carries such values and never computes with them.
#[derive(Debug, Copy, Clone, PartialEq, Eq, Structural)]
pub struct Scalar {
    pub bits: u64,
}

impl Scalar {
    /// The value is `+0.0` or `-0.0`.
    pub open spec fn is_zero(self) -> bool {
        self.bits == 0 || self.bits == 0x8000_0000_0000_0000
    }

    /// The sign bit is set and the value is not `-0.0`.
    pub open spec fn is_negative(self) -> bool {
        self.bits > 0x8000_0000_0000_0000
    }

    /// The value with the bit pattern `bits`.
    pub fn from_bits(bits: u64) -> (s: Self)
        ensures
            s.bits == bits,
    {
        Scalar { bits }
    }

    /// The bit pattern of the value.
    pub fn to_bits(self) -> (bits: u64)
        ensures
            bits == self.bits,
    {
        self.bits
    }
}

/// The text `bytes` can be a C string: it holds no NUL byte.
pub open spec fn is_c_string(bytes: Seq<u8>) -> bool {
    forall|i: int| 0 <= i < bytes.len() ==> bytes[i] != 0
}

/// Decides `is_c_string`.
pub fn check_c_string(bytes: &Vec<u8>) -> (ok: bool)
    ensures
        ok == is_c_string(bytes@),
{
    let mut i: usize = 0;
    while i < bytes.len()
        invariant
            i <= bytes.len(),
            forall|j: int| 0 <= j < i ==> bytes@[j] != 0,
        decreases bytes.len() - i,
    {
        if bytes[i] == 0 {
            return false;
        }
        i += 1;
    }
    true
}

/// One page of the host's page table. Its index is its position there.
#[derive(Debug, Copy, Clone, PartialEq, Eq, Structural)]
pub struct RawPage {
    /// Width in points; zero until the page is initialized.
    pub width: Scalar,
    /// Height in points; zero until the page is initialized.
    pub height: Scalar,
    /// Handle of the attached `PageData` block, if any.
    pub data: Option<usize>,
}

/// The host's document object, as plain values.
#[derive(Debug)]
pub struct RawDocument {
    /// Local file path, or a temporary path if loaded from a URI.
    pub path: Vec<u8>,
    /// The URI the document was loaded from, if it was loaded from one.
    pub uri: Option<Vec<u8>>,
    /// Basename of whichever of path and URI is authoritative.
    pub basename: Vec<u8>,
    /// User-controlled zoom factor.
    pub zoom: Scalar,
    /// Render scale in device pixels per point.
    pub scale: Scalar,
    /// Viewport rotation in degrees.
    pub rotation: u32,
    /// Pixels per inch of the viewport; zero if unknown.
    pub viewport_ppi: Scalar,
    /// Device scaling factor of the X axis.
    pub scaling_x: Scalar,
    /// Device scaling factor of the Y axis.
    pub scaling_y: Scalar,
    /// Width of the largest page cell, in device pixels.
    pub cell_width: u32,
    /// Height of the largest page cell, in device pixels.
    pub cell_height: u32,
    /// Declared number of pages.
    pub page_count: u32,
    /// Index of the currently focused page.
    pub current_page: u32,
    /// Handle of the attached `DocumentData` block, if any.
    pub data: Option<usize>,
    /// The page table. The host fills it after the page count is declared.
    pub pages: Vec<RawPage>,
}

impl RawDocument {
    /// What the host guarantees of every document: text fields are C
    /// strings, the rotation is a multiple of 90 below 360, the viewport's
    /// resolution is not negative, and the scaling factors are equal and not
    /// zero.
    pub open spec fn valid(&self) -> bool {
        &&& is_c_string(self.path@)
        &&& is_c_string(self.basename@)
        &&& (self.uri.is_some() ==> is_c_string(self.uri.unwrap()@))
        &&& (self.rotation == 0 || self.rotation == 90 || self.rotation == 180 || self.rotation
            == 270)
        &&& !self.viewport_ppi.is_negative()
        &&& !self.scaling_x.is_zero()
        &&& self.scaling_x == self.scaling_y
    }

    /// The page table holds exactly the declared number of pages.
    pub open spec fn populated(&self) -> bool {
        self.pages@.len() == self.page_count
    }

    /// Page `index` is declared and present in the page table.
    pub open spec fn has_page(&self, index: usize) -> bool {
        index < self.page_count && index < self.pages@.len()
    }

    /// `after` is this document with page `index` replaced by `entry`, and
    /// nothing else changed.
    pub open spec fn updated_page(&self, index: usize, entry: RawPage, after: RawDocument) -> bool {
        &&& after.pages@ == self.pages@.update(index as int, entry)
        &&& after.path == self.path
        &&& after.uri == self.uri
        &&& after.basename == self.basename
        &&& after.zoom == self.zoom
        &&& after.scale == self.scale
        &&& after.rotation == self.rotation
        &&& after.viewport_ppi == self.viewport_ppi
        &&& after.scaling_x == self.scaling_x
        &&& after.scaling_y == self.scaling_y
        &&& after.cell_width == self.cell_width
        &&& after.cell_height == self.cell_height
        &&& after.page_count == self.page_count
        &&& after.current_page == self.current_page
        &&& after.data == self.data
    }

    /// Decides `valid`.
    pub fn is_valid(&self) -> (ok: bool)
        ensures
            ok == self.valid(),
    {
        let uri_ok = match &self.uri {
            Some(uri) => check_c_string(uri),
            None => true,
        };
        check_c_string(&self.path) && check_c_string(&self.basename) && uri_ok && (self.rotation
            == 0 || self.rotation == 90 || self.rotation == 180 || self.rotation == 270)
            && self.viewport_ppi.bits <= 0x8000_0000_0000_0000 && self.scaling_x.bits != 0
            && self.scaling_x.bits != 0x8000_0000_0000_0000 && self.scaling_x.bits
            == self.scaling_y.bits
    }
}

/// Once the host has filled the page table of a document to the declared
/// count, a page is found under an index exactly when the index is below
/// that count.
pub proof fn lemma_page_lookup(doc: RawDocument, index: usize)
    requires
        doc.populated(),
    ensures
        doc.has_page(index) <==> index < doc.page_count,
{
}

/// Reads `bytes` as UTF-8 text with `core::str::from_utf8`.
///
/// Taken from that function's documentation and not proved here: the call
/// succeeds exactly on valid UTF-8, and the text then has those bytes.
#[verifier::external_body]
fn text_of(bytes: &[u8]) -> (r: Result<&str, Utf8Error>)
    ensures
        r.is_ok() <==> valid_utf8(bytes@),
        r.is_ok() ==> r.unwrap().spec_bytes() == bytes@,
{
    core::str::from_utf8(bytes)
}

/// A scoped, exclusive reference to a document of the host.
///
/// Whoever holds the value holds the document: no second reference to it or
/// to one of its pages exists until the value is given back.
#[derive(Debug)]
pub struct DocumentRef {
    raw: RawDocument,
}

impl DocumentRef {
    #[verifier::type_invariant]
    spec fn inv(self) -> bool {
        self.raw.valid()
    }

    /// The document behind the reference.
    pub closed spec fn view(&self) -> RawDocument {
        self.raw
    }

    /// Creates a document reference from the host's document.
    pub fn from_raw(raw: RawDocument) -> (doc: Self)
        requires
            raw.valid(),
        ensures
            doc@ == raw,
    {
        DocumentRef { raw }
    }

    /// Ends the reference and gives the document back.
    pub fn into_raw(self) -> (raw: RawDocument)
        ensures
            raw == self@,
            raw.valid(),
    {
        proof {
            use_type_invariant(&self);
        }
        self.raw
    }

    /// Returns the file path as raw bytes, without a terminating NUL.
    ///
    /// If the document was loaded from a URI, this is a temporary file path.
    pub fn path_raw(&self) -> (path: &[u8])
        ensures
            path@ == self@.path@,
            is_c_string(path@),
    {
        proof {
            use_type_invariant(self);
        }
        self.raw.path.as_slice()
    }

    /// Returns the file path from which this document was or will be loaded,
    /// or the decode error when the raw path is not valid UTF-8.
    pub fn path_utf8(&self) -> (path: Result<&str, Utf8Error>)
        ensures
            path.is_ok() <==> valid_utf8(self@.path@),
            path.is_ok() ==> path.unwrap().spec_bytes() == self@.path@,
    {
        text_of(self.path_raw())
    }

    /// Returns the URI this document was loaded from, or `None` if it was
    /// loaded from a local file path.
    pub fn uri_raw(&self) -> (uri: Option<&[u8]>)
        ensures
            uri.is_some() <==> self@.uri.is_some(),
            uri.is_some() ==> uri.unwrap()@ == self@.uri.unwrap()@ && is_c_string(uri.unwrap()@),
    {
        proof {
            use_type_invariant(self);
        }
        match &self.raw.uri {
            Some(uri) => Some(uri.as_slice()),
            None => None,
        }
    }

    /// Returns the URI from which this document was or will be loaded:
    /// `None` if it was loaded from a local file path, the decode error when
    /// the raw URI is not valid UTF-8.
    pub fn uri_utf8(&self) -> (uri: Option<Result<&str, Utf8Error>>)
        ensures
            uri.is_some() <==> self@.uri.is_some(),
            uri.is_some() ==> (uri.unwrap().is_ok() <==> valid_utf8(self@.uri.unwrap()@)),
            uri.is_some() && uri.unwrap().is_ok() ==> uri.unwrap().unwrap().spec_bytes()
                == self@.uri.unwrap()@,
    {
        match self.uri_raw() {
            Some(uri) => Some(text_of(uri)),
            None => None,
        }
    }

    /// Returns the raw basename of the document's path or URI.
    pub fn basename_raw(&self) -> (name: &[u8])
        ensures
            name@ == self@.basename@,
            is_c_string(name@),
    {
        proof {
            use_type_invariant(self);
        }
        self.raw.basename.as_slice()
    }

    /// Returns the UTF-8 basename of the document's path or URI, or the
    /// decode error when it is not valid UTF-8.
    pub fn basename_utf8(&self) -> (name: Result<&str, Utf8Error>)
        ensures
            name.is_ok() <==> valid_utf8(self@.basename@),
            name.is_ok() ==> name.unwrap().spec_bytes() == self@.basename@,
    {
        text_of(self.basename_raw())
    }

    /// Returns the zoom level of the document.
    pub fn zoom(&self) -> (z: Scalar)
        ensures
            z == self@.zoom,
    {
        self.raw.zoom
    }

    /// Returns the render scale in device pixels per point.
    pub fn scale(&self) -> (s: Scalar)
        ensures
            s == self@.scale,
    {
        self.raw.scale
    }

    /// Returns the viewport rotation in degrees: 0, 90, 180 or 270.
    pub fn rotation(&self) -> (r: u32)
        ensures
            r == self@.rotation,
            r == 0 || r == 90 || r == 180 || r == 270,
    {
        proof {
            use_type_invariant(self);
        }
        self.raw.rotation
    }

    /// Returns the viewport's pixels per inch; zero if unknown.
    pub fn viewport_ppi(&self) -> (ppi: Scalar)
        ensures
            ppi == self@.viewport_ppi,
            !ppi.is_negative(),
    {
        proof {
            use_type_invariant(self);
        }
        self.raw.viewport_ppi
    }

    /// Returns the device scaling factors of the X and the Y axis. They are
    /// equal and never zero.
    pub fn scaling_factors(&self) -> (f: (Scalar, Scalar))
        ensures
            f.0 == self@.scaling_x,
            f.1 == self@.scaling_y,
            f.0 == f.1,
            !f.0.is_zero(),
    {
        proof {
            use_type_invariant(self);
        }
        (self.raw.scaling_x, self.raw.scaling_y)
    }

    /// Returns width and height of the largest page cell, in device pixels.
    pub fn cell_size(&self) -> (size: (u32, u32))
        ensures
            size.0 == self@.cell_width,
            size.1 == self@.cell_height,
    {
        (self.raw.cell_width, self.raw.cell_height)
    }

    /// Returns the declared number of pages in this document.
    pub fn page_count(&self) -> (n: u32)
        ensures
            n == self@.page_count,
    {
        self.raw.page_count
    }

    /// Turns this reference into a reference to the page at `index`.
    ///
    /// Gives the document reference back unchanged when there is no such
    /// page: `index` is not below the page count, or the page table does not
    /// reach it.
    pub fn page(self, index: usize) -> (r: Result<PageRef, DocumentRef>)
        ensures
            r.is_ok() <==> self@.has_page(index),
            r.is_ok() ==> r.unwrap().spec_index() == index && r.unwrap().spec_document() == self,
            r.is_err() ==> r.unwrap_err() == self,
    {
        if index < self.raw.pages.len() && index < self.raw.page_count as usize {
            Ok(PageRef::new(self, index))
        } else {
            Err(self)
        }
    }

    /// Reads entry `index` of the page table.
    pub(crate) fn page_entry(&self, index: usize) -> (entry: RawPage)
        requires
            index < self@.pages@.len(),
        ensures
            entry == self@.pages@[index as int],
    {
        self.raw.pages[index]
    }

    /// Writes entry `index` of the page table.
    pub(crate) fn set_page_entry(&mut self, index: usize, entry: RawPage)
        requires
            index < old(self)@.pages@.len(),
        ensures
            old(self)@.updated_page(index, entry, final(self)@),
        no_unwind
    {
        proof {
            use_type_invariant(&*self);
        }
        self.raw.pages[index] = entry;
    }

    /// Returns the currently focused page index.
    pub fn current_page_index(&self) -> (i: u32)
        ensures
            i == self@.current_page,
    {
        self.raw.current_page
    }

    /// Declares the number of pages of the document.
    ///
    /// This allocates no page: the page table is left as it is, for the host
    /// to fill.
    pub fn set_page_count(&mut self, count: u32)
        ensures
            final(self)@ == (RawDocument { page_count: count, ..old(self)@ }),
    {
        proof {
            use_type_invariant(&*self);
        }
        self.raw.page_count = count;
    }

    /// Returns the handle of the plugin data attached to the document.
    pub fn plugin_data(&self) -> (data: Option<usize>)
        ensures
            data == self@.data,
    {
        self.raw.data
    }

    /// Sets the handle of the plugin data attached to the document.
    pub fn set_plugin_data(&mut self, data: Option<usize>)
        ensures
            final(self)@ == (RawDocument { data: data, ..old(self)@ }),
    {
        proof {
            use_type_invariant(&*self);
        }
        self.raw.data = data;
    }
}

} // verus!
