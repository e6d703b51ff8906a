//! The scoped reference to one page of a document.

use crate::document::{DocumentRef, RawDocument, RawPage, Scalar};
use vstd::prelude::*;

verus! {

/// A scoped, exclusive reference to a page in a document.
///
/// The reference holds the page's document with it: while it exists there is
/// no independent reference to that document.
#[derive(Debug)]
pub struct PageRef {
    doc: DocumentRef,
    index: usize,
}

impl PageRef {
    #[verifier::type_invariant]
    spec fn inv(self) -> bool {
        self.doc@.has_page(self.index)
    }

    /// The document that holds the page.
    pub closed spec fn spec_document(&self) -> DocumentRef {
        self.doc
    }

    /// The position of the page in its document.
    pub closed spec fn spec_index(&self) -> usize {
        self.index
    }

    /// The page in the host's page table.
    pub open spec fn view(&self) -> RawPage {
        self.spec_document()@.pages@[self.spec_index() as int]
    }

    /// Turns a document reference into the reference to its page `index`.
    pub(crate) fn new(doc: DocumentRef, index: usize) -> (page: Self)
        requires
            doc@.has_page(index),
        ensures
            page.spec_document() == doc,
            page.spec_index() == index,
    {
        PageRef { doc, index }
    }

    /// Creates a reference to page `index` of the host's document.
    pub fn from_raw(document: RawDocument, index: usize) -> (page: Self)
        requires
            document.valid(),
            document.has_page(index),
        ensures
            page.spec_document()@ == document,
            page.spec_index() == index,
    {
        PageRef { doc: DocumentRef::from_raw(document), index }
    }

    /// Ends the reference and gives the document back.
    pub fn into_raw(self) -> (raw: RawDocument)
        ensures
            raw == self.spec_document()@,
            raw.valid(),
    {
        self.doc.into_raw()
    }

    /// Ends the reference to the page and keeps the one to its document.
    pub fn into_document(self) -> (doc: DocumentRef)
        ensures
            doc == self.spec_document(),
    {
        self.doc
    }

    /// Obtains a reference to the document containing this page.
    ///
    /// The document reference borrows the page reference: until the borrow
    /// ends the page reference cannot be changed or taken apart, so no
    /// independent reference to the document can be produced.
    pub fn document(&self) -> (doc: &DocumentRef)
        ensures
            *doc == self.spec_document(),
            doc@.has_page(self.spec_index()),
    {
        proof {
            use_type_invariant(self);
        }
        &self.doc
    }

    /// Returns the index of this page in the document (zero-based).
    pub fn index(&self) -> (i: usize)
        ensures
            i == self.spec_index(),
    {
        proof {
            use_type_invariant(self);
        }
        self.index
    }

    /// Returns the width of the page in points; zero until it is set.
    pub fn width(&self) -> (w: Scalar)
        ensures
            w == self@.width,
    {
        proof {
            use_type_invariant(self);
        }
        self.doc.page_entry(self.index).width
    }

    /// Sets the width of the page in points.
    pub fn set_width(&mut self, width: Scalar)
        ensures
            final(self)@ == (RawPage { width: width, ..old(self)@ }),
            final(self).spec_index() == old(self).spec_index(),
            old(self).spec_document()@.has_page(old(self).spec_index()),
            old(self).spec_document()@.updated_page(
                old(self).spec_index(),
                final(self)@,
                final(self).spec_document()@,
            ),
    {
        proof {
            use_type_invariant(&*self);
        }
        let entry = self.doc.page_entry(self.index);
        self.doc.set_page_entry(self.index, RawPage { width, ..entry });
    }

    /// Returns the height of the page in points; zero until it is set.
    pub fn height(&self) -> (h: Scalar)
        ensures
            h == self@.height,
    {
        proof {
            use_type_invariant(self);
        }
        self.doc.page_entry(self.index).height
    }

    /// Sets the height of the page in points.
    pub fn set_height(&mut self, height: Scalar)
        ensures
            final(self)@ == (RawPage { height: height, ..old(self)@ }),
            final(self).spec_index() == old(self).spec_index(),
            old(self).spec_document()@.has_page(old(self).spec_index()),
            old(self).spec_document()@.updated_page(
                old(self).spec_index(),
                final(self)@,
                final(self).spec_document()@,
            ),
    {
        proof {
            use_type_invariant(&*self);
        }
        let entry = self.doc.page_entry(self.index);
        self.doc.set_page_entry(self.index, RawPage { height, ..entry });
    }

    /// Returns the handle of the plugin data attached to the page.
    pub fn plugin_data(&self) -> (data: Option<usize>)
        ensures
            data == self@.data,
    {
        proof {
            use_type_invariant(self);
        }
        self.doc.page_entry(self.index).data
    }

    /// Sets the handle of the plugin data attached to the page.
    pub fn set_plugin_data(&mut self, data: Option<usize>)
        ensures
            final(self)@ == (RawPage { data: data, ..old(self)@ }),
            final(self).spec_index() == old(self).spec_index(),
            old(self).spec_document()@.has_page(old(self).spec_index()),
            old(self).spec_document()@.updated_page(
                old(self).spec_index(),
                final(self)@,
                final(self).spec_document()@,
            ),
    {
        proof {
            use_type_invariant(&*self);
        }
        let entry = self.doc.page_entry(self.index);
        self.doc.set_page_entry(self.index, RawPage { data, ..entry });
    }
}

/// The document reached through a page reference is the document that the
/// page reference was made from: it has the same page count, page table
/// and geometry.
pub proof fn lemma_page_document(doc: DocumentRef, index: usize, page: PageRef)
    requires
        page.spec_document() == doc,
        page.spec_index() == index,
    ensures
        page.spec_document()@.page_count == doc@.page_count,
        page.spec_document()@.pages == doc@.pages,
        page.spec_document()@.rotation == doc@.rotation,
        page.spec_document()@.zoom == doc@.zoom,
        page.spec_document()@.scale == doc@.scale,
        page.spec_document()@.cell_width == doc@.cell_width,
        page.spec_document()@.cell_height == doc@.cell_height,
        page@ == doc@.pages@[index as int],
{
}

} // verus!
