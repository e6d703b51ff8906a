//! The descriptor a plugin hands to the host when it is loaded.

use vstd::prelude::*;
use vstd::string::StringSliceAdditionalSpecFns;

verus! {

/// Version of a plugin.
#[derive(Debug, Copy, Clone, PartialEq, Eq, Structural)]
pub struct PluginVersion {
    pub major: u32,
    pub minor: u32,
    pub rev: u32,
}

/// The callbacks of the host's interface, each marked as implemented or
/// absent.
#[derive(Debug, Copy, Clone, PartialEq, Eq, Structural)]
pub struct PluginFunctions {
    pub document_open: bool,
    pub document_free: bool,
    pub document_index_generate: bool,
    pub document_save_as: bool,
    pub document_attachments_get: bool,
    pub document_attachment_save: bool,
    pub document_get_information: bool,
    pub page_init: bool,
    pub page_clear: bool,
    pub page_search_text: bool,
    pub page_links_get: bool,
    pub page_form_fields_get: bool,
    pub page_images_get: bool,
    pub page_image_get_cairo: bool,
    pub page_get_text: bool,
    pub page_render: bool,
    pub page_render_cairo: bool,
    pub page_get_label: bool,
}

/// What a plugin declares of itself: its name, its version, the MIME types
/// it supports, and the callbacks it implements. Name and MIME types are C
/// strings with their terminating NUL.
#[derive(Debug)]
pub struct PluginDefinition {
    pub name: Vec<u8>,
    pub version: PluginVersion,
    pub mime_types: Vec<Vec<u8>>,
    pub functions: PluginFunctions,
}

/// The callbacks this library implements: opening and freeing a document,
/// initializing, clearing and rendering a page. Every other callback is
/// absent.
pub open spec fn implemented() -> PluginFunctions {
    PluginFunctions {
        document_open: true,
        document_free: true,
        document_index_generate: false,
        document_save_as: false,
        document_attachments_get: false,
        document_attachment_save: false,
        document_get_information: false,
        page_init: true,
        page_clear: true,
        page_search_text: false,
        page_links_get: false,
        page_form_fields_get: false,
        page_images_get: false,
        page_image_get_cairo: false,
        page_get_text: false,
        page_render: false,
        page_render_cairo: true,
        page_get_label: false,
    }
}

/// The bytes of `text` followed by a NUL.
pub open spec fn terminated(text: Seq<u8>) -> Seq<u8> {
    text.push(0u8)
}

/// Returns `text` as a C string: its bytes followed by a NUL.
pub fn c_string(text: &str) -> (out: Vec<u8>)
    ensures
        out@ == terminated(text.spec_bytes()),
{
    let bytes = text.as_bytes();
    let mut out: Vec<u8> = Vec::new();
    let mut i: usize = 0;
    while i < bytes.len()
        invariant
            i <= bytes@.len(),
            out@ == bytes@.subrange(0, i as int),
        decreases bytes@.len() - i,
    {
        out.push(bytes[i]);
        assert(out@ =~= bytes@.subrange(0, i + 1));
        i += 1;
    }
    assert(bytes@.subrange(0, i as int) =~= bytes@);
    out.push(0);
    out
}

/// Declares a plugin called `name` that supports `mime_types`.
///
/// The descriptor has version `0.0.0`, carries name and MIME types as C
/// strings in the order given, and marks as implemented exactly the
/// callbacks of this library.
pub fn plugin_entry(name: &str, mime_types: &[&str]) -> (def: PluginDefinition)
    ensures
        def.name@ == terminated(name.spec_bytes()),
        def.version == (PluginVersion { major: 0, minor: 0, rev: 0 }),
        def.mime_types@.len() == mime_types@.len(),
        forall|i: int|
            0 <= i < mime_types@.len() ==> (#[trigger] def.mime_types@[i])@ == terminated(
                mime_types@[i].spec_bytes(),
            ),
        def.functions == implemented(),
{
    let mut types: Vec<Vec<u8>> = Vec::new();
    let mut i: usize = 0;
    while i < mime_types.len()
        invariant
            i <= mime_types@.len(),
            types@.len() == i,
            forall|j: int|
                0 <= j < i ==> (#[trigger] types@[j])@ == terminated(mime_types@[j].spec_bytes()),
        decreases mime_types@.len() - i,
    {
        types.push(c_string(mime_types[i]));
        i += 1;
    }
    PluginDefinition {
        name: c_string(name),
        version: PluginVersion { major: 0, minor: 0, rev: 0 },
        mime_types: types,
        functions: PluginFunctions {
            document_open: true,
            document_free: true,
            document_index_generate: false,
            document_save_as: false,
            document_attachments_get: false,
            document_attachment_save: false,
            document_get_information: false,
            page_init: true,
            page_clear: true,
            page_search_text: false,
            page_links_get: false,
            page_form_fields_get: false,
            page_images_get: false,
            page_image_get_cairo: false,
            page_get_text: false,
            page_render: false,
            page_render_cairo: true,
            page_get_label: false,
        },
    }
}

} // verus!
