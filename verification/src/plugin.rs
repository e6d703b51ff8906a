//! The contract a plugin implements.

use crate::document::{DocumentRef, Scalar};
use crate::error::PluginError;
use crate::page::PageRef;
use vstd::prelude::*;

verus! {

/// Information needed to configure a document.
#[derive(Debug)]
pub struct DocumentInfo<P: ZathuraPlugin + ?Sized> {
    /// Number of pages to create in the document.
    pub page_count: u32,
    /// Plugin-specific data to attach to the document.
    pub plugin_data: P::DocumentData,
}

/// Information needed to configure a document page.
#[derive(Debug)]
pub struct PageInfo<P: ZathuraPlugin + ?Sized> {
    /// Width of the page in points.
    pub width: Scalar,
    /// Height of the page in points.
    pub height: Scalar,
    /// Plugin-specific data to attach to the page.
    pub plugin_data: P::PageData,
}

/// Trait to be implemented by plugins.
///
/// The library promises nothing of what a plugin's own methods return:
/// every callback is specified for each result the plugin can give. Of the
/// two hooks that the trait provides, it states what they do for a plugin
/// that keeps them.
pub trait ZathuraPlugin {
    /// Plugin-specific data attached to documents. Use `()` if none is
    /// needed.
    type DocumentData;

    /// Plugin-specific data attached to every page. Use `()` if none is
    /// needed.
    type PageData;

    /// The drawing surface that pages are rendered to.
    type Surface;

    /// Open a document and read its metadata.
    ///
    /// This has to determine and return the number of pages in the document.
    /// The host creates that number of pages and has each initialized and
    /// rendered through the methods below.
    fn document_open(doc: &DocumentRef) -> Result<DocumentInfo<Self>, PluginError>;

    /// Whether the plugin keeps the document-free hook that is given here.
    /// Only a plugin that writes no hook of its own may say `true`; unless a
    /// plugin says so, nothing is known of its hook.
    open spec fn keeps_document_free() -> bool {
        false
    }

    /// Whether the plugin keeps the page-free hook that is given here. Only
    /// a plugin that writes no hook of its own may say `true`; unless a
    /// plugin says so, nothing is known of its hook.
    open spec fn keeps_page_free() -> bool {
        false
    }

    /// Additional hook called before the document's resources are freed.
    ///
    /// A plugin need not implement this: the library releases the
    /// `DocumentData` attached to the document, and the host frees the
    /// document itself. The hook given here succeeds and leaves the data as
    /// it is; of a plugin's own hook nothing is said.
    fn document_free(doc: &DocumentRef, doc_data: &mut Self::DocumentData) -> (r: Result<
        (),
        PluginError,
    >)
        ensures
            Self::keeps_document_free() ==> r.is_ok() && *final(doc_data) == *old(doc_data),
    {
        Ok(())
    }

    /// Initialize a document page and obtain its properties.
    ///
    /// Called once per page when the document is loaded. The properties
    /// returned are applied by the library.
    fn page_init(page: &PageRef, doc_data: &mut Self::DocumentData) -> Result<
        PageInfo<Self>,
        PluginError,
    >;

    /// Additional hook called before a page's resources are freed.
    ///
    /// A plugin need not implement this: the library releases the `PageData`
    /// attached to the page, and the host frees the page itself. The hook
    /// given here succeeds and leaves the data as it is; of a plugin's own
    /// hook nothing is said.
    fn page_free(
        page: &PageRef,
        doc_data: &mut Self::DocumentData,
        page_data: &mut Self::PageData,
    ) -> (r: Result<(), PluginError>)
        ensures
            Self::keeps_page_free() ==> r.is_ok() && *final(doc_data) == *old(doc_data)
                && *final(page_data) == *old(page_data),
    {
        Ok(())
    }

    /// Render a document page to a drawing surface, for printing
    /// (`printing` is `true`) or for viewing.
    fn page_render(
        page: &PageRef,
        doc_data: &mut Self::DocumentData,
        page_data: &mut Self::PageData,
        surface: &mut Self::Surface,
        printing: bool,
    ) -> Result<(), PluginError>;
}

} // verus!
