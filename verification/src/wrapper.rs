//! The callbacks the host invokes, in terms of the plugin contract.
//!
//! Each callback hands the plugin a reference to the object concerned and
//! the data blocks attached to it, and reports the plugin's answer as a
//! status code. What is done with an answer is a function of its own, stated
//! for every answer a plugin can give.

use crate::document::{DocumentRef, RawDocument, RawPage};
use crate::error::{encode, to_zathura, PluginError};
use crate::page::PageRef;
use crate::plugin::{DocumentInfo, PageInfo, ZathuraPlugin};
use crate::store::{attached, free_handle, released, DataStore};
use vstd::prelude::*;

verus! {

/// The slot `slot` of a document or page names a block attached in `store`.
pub open spec fn attached_in<T>(slot: Option<usize>, store: &DataStore<T>) -> bool {
    slot.is_some() && store.holds(slot.unwrap())
}

/// Decides `attached_in`.
pub fn is_attached_in<T>(slot: Option<usize>, store: &DataStore<T>) -> (b: bool)
    ensures
        b == attached_in(slot, store),
{
    match slot {
        Some(handle) => store.contains(handle),
        None => false,
    }
}

/// What document-open makes of the plugin's `answer`: `doc` and the blocks
/// `slots` become `doc_after` and `slots_after`, and `status` is reported.
///
/// On success the returned data is attached under the next handle, the
/// handle is written to the document's slot and the page count is declared.
/// On failure nothing changes.
pub open spec fn document_opened<P: ZathuraPlugin>(
    doc: RawDocument,
    slots: Seq<Option<P::DocumentData>>,
    answer: Result<DocumentInfo<P>, PluginError>,
    doc_after: RawDocument,
    slots_after: Seq<Option<P::DocumentData>>,
    status: u32,
) -> bool {
    match answer {
        Ok(info) => {
            &&& status == 0
            &&& doc_after.data.is_some()
            &&& free_handle(slots, doc_after.data.unwrap())
            &&& slots_after == attached(slots, doc_after.data.unwrap(), info.plugin_data)
            &&& doc_after == (RawDocument {
                page_count: info.page_count,
                data: doc_after.data,
                ..doc
            })
        },
        Err(e) => {
            &&& status == e.spec_code()
            &&& doc_after == doc
            &&& slots_after == slots
        },
    }
}

/// What page-init makes of the plugin's `answer` for page `index` of `doc`:
/// the document and the page blocks `slots` become `doc_after` and
/// `slots_after`, and `status` is reported.
///
/// On success the page gets the returned width and height, the returned
/// data is attached under the next handle and the handle is written to the
/// page's slot; no other page changes. On failure nothing changes.
pub open spec fn page_initialized<P: ZathuraPlugin>(
    doc: RawDocument,
    index: usize,
    slots: Seq<Option<P::PageData>>,
    answer: Result<PageInfo<P>, PluginError>,
    doc_after: RawDocument,
    slots_after: Seq<Option<P::PageData>>,
    status: u32,
) -> bool {
    match answer {
        Ok(info) => {
            let entry = doc_after.pages@[index as int];
            &&& status == 0
            &&& entry.data.is_some()
            &&& free_handle(slots, entry.data.unwrap())
            &&& slots_after == attached(slots, entry.data.unwrap(), info.plugin_data)
            &&& entry == (RawPage { width: info.width, height: info.height, data: entry.data })
            &&& doc.updated_page(index, entry, doc_after)
        },
        Err(e) => {
            &&& status == e.spec_code()
            &&& doc_after == doc
            &&& slots_after == slots
        },
    }
}

/// Applies the plugin's answer to document-open.
///
/// On success the returned data is attached under the store's next handle,
/// the handle is written to the document's slot and the page count is
/// declared. On failure nothing changes. The status reports the answer.
pub fn finish_document_open<P: ZathuraPlugin>(
    doc: &mut DocumentRef,
    store: &mut DataStore<P::DocumentData>,
    result: Result<DocumentInfo<P>, PluginError>,
) -> (status: u32)
    requires
        old(store).wf(),
    ensures
        final(store).wf(),
        match result {
            Ok(info) => {
                &&& status == 0
                &&& final(doc)@.data.is_some()
                &&& free_handle(old(store)@, final(doc)@.data.unwrap())
                &&& final(store)@ == attached(
                    old(store)@,
                    final(doc)@.data.unwrap(),
                    info.plugin_data,
                )
                &&& final(store).live_blocks() == old(store).live_blocks() + 1
                &&& final(doc)@ == (RawDocument {
                    page_count: info.page_count,
                    data: final(doc)@.data,
                    ..old(doc)@
                })
            },
            Err(e) => {
                &&& status == e.spec_code()
                &&& *final(doc) == *old(doc)
                &&& final(store)@ == old(store)@
            },
        },
{
    match result {
        Ok(info) => {
            let handle = store.attach(info.plugin_data);
            doc.set_plugin_data(Some(handle));
            doc.set_page_count(info.page_count);
            to_zathura(Ok(()))
        },
        Err(e) => to_zathura(Err(e)),
    }
}

/// Opens a document: asks the plugin, then attaches its data and declares
/// the number of pages.
///
/// The plugin's document-open is called on the document as it came in, and
/// what it answers is applied as `document_opened` says. So, whatever the
/// answer: on status `0` a new block is attached under the store's next
/// handle and nothing of the document changed but its slot and its page
/// count; on any other status nothing changed at all.
pub fn document_open<P: ZathuraPlugin>(
    doc: &mut DocumentRef,
    store: &mut DataStore<P::DocumentData>,
) -> (status: u32)
    requires
        old(store).wf(),
    ensures
        final(store).wf(),
        exists|answer: Result<DocumentInfo<P>, PluginError>|
            {
                &&& #[trigger] call_ensures(P::document_open, (&*old(doc),), answer)
                &&& document_opened::<P>(
                    old(doc)@,
                    old(store)@,
                    answer,
                    final(doc)@,
                    final(store)@,
                    status,
                )
            },
        status <= 5,
        status == 0 ==> {
            &&& final(doc)@.data.is_some()
            &&& free_handle(old(store)@, final(doc)@.data.unwrap())
            &&& final(store)@ == attached(
                old(store)@,
                final(doc)@.data.unwrap(),
                final(store).block(final(doc)@.data.unwrap()),
            )
            &&& final(store).live_blocks() == old(store).live_blocks() + 1
            &&& final(doc)@ == (RawDocument {
                page_count: final(doc)@.page_count,
                data: final(doc)@.data,
                ..old(doc)@
            })
        },
        status != 0 ==> *final(doc) == *old(doc) && final(store)@ == old(store)@,
{
    let result = P::document_open(&*doc);
    finish_document_open::<P>(doc, store, result)
}

/// Applies the plugin's answer to document-free: the document's data block
/// is released whatever the answer, and the status reports the answer.
pub fn finish_document_free<T>(
    doc: &DocumentRef,
    store: &mut DataStore<T>,
    result: Result<(), PluginError>,
) -> (status: u32)
    requires
        old(store).wf(),
        attached_in(doc@.data, old(store)),
    ensures
        final(store).wf(),
        status == encode(result),
        final(store)@ =~= released(old(store)@, doc@.data.unwrap()),
        final(store).live_blocks() + 1 == old(store).live_blocks(),
{
    let handle = doc.plugin_data().unwrap();
    let _ = store.release(handle);
    to_zathura(result)
}

/// Frees the plugin's data of a document: runs the plugin's hook on the
/// attached block, then releases the block.
///
/// The plugin's document-free is called on the document and on the block
/// attached to it, as they came in, and the status reports its answer.
/// Whatever the hook answers, the block is released exactly once. With a
/// plugin that keeps the hook the trait provides, the callback succeeds.
pub fn document_free<P: ZathuraPlugin>(
    doc: &DocumentRef,
    store: &mut DataStore<P::DocumentData>,
) -> (status: u32)
    requires
        old(store).wf(),
        attached_in(doc@.data, old(store)),
    ensures
        final(store).wf(),
        exists|data: &mut P::DocumentData, answer: Result<(), PluginError>|
            {
                &&& #[trigger] call_ensures(P::document_free, (doc, data), answer)
                &&& *data == old(store).block(doc@.data.unwrap())
                &&& status == encode(answer)
            },
        status <= 5,
        P::keeps_document_free() ==> status == 0,
        final(store)@ =~= released(old(store)@, doc@.data.unwrap()),
        final(store).live_blocks() + 1 == old(store).live_blocks(),
{
    let handle = doc.plugin_data().unwrap();
    let data = store.get_mut(handle).unwrap();
    let result = P::document_free(doc, data);
    finish_document_free(doc, store, result)
}

/// Applies the plugin's answer to page-init.
///
/// On success the page gets the returned width and height, the returned
/// data is attached under the store's next handle and the handle is written
/// to the page's slot. On failure nothing changes. The status reports the
/// answer.
pub fn finish_page_init<P: ZathuraPlugin>(
    page: &mut PageRef,
    store: &mut DataStore<P::PageData>,
    result: Result<PageInfo<P>, PluginError>,
) -> (status: u32)
    requires
        old(store).wf(),
    ensures
        final(store).wf(),
        final(page).spec_index() == old(page).spec_index(),
        match result {
            Ok(info) => {
                &&& status == 0
                &&& final(page)@.data.is_some()
                &&& free_handle(old(store)@, final(page)@.data.unwrap())
                &&& final(store)@ == attached(
                    old(store)@,
                    final(page)@.data.unwrap(),
                    info.plugin_data,
                )
                &&& final(store).live_blocks() == old(store).live_blocks() + 1
                &&& final(page)@ == (RawPage {
                    width: info.width,
                    height: info.height,
                    data: final(page)@.data,
                })
                &&& old(page).spec_document()@.updated_page(
                    old(page).spec_index(),
                    final(page)@,
                    final(page).spec_document()@,
                )
            },
            Err(e) => {
                &&& status == e.spec_code()
                &&& *final(page) == *old(page)
                &&& final(store)@ == old(store)@
            },
        },
{
    match result {
        Ok(info) => {
            page.set_width(info.width);
            page.set_height(info.height);
            let handle = store.attach(info.plugin_data);
            page.set_plugin_data(Some(handle));
            assert(page.spec_document()@.pages@ =~= old(page).spec_document()@.pages@.update(
                page.spec_index() as int,
                page@,
            ));
            to_zathura(Ok(()))
        },
        Err(e) => to_zathura(Err(e)),
    }
}

/// Initializes a page: asks the plugin, then sets the page's dimensions and
/// attaches its data.
///
/// The plugin's page-init is called on the page as it came in and on the
/// document's block, which afterwards holds what the plugin left in it;
/// what it answers is applied as `page_initialized` says. So, whatever the
/// answer: the document's block stays attached; on status `0` a new block
/// is attached under the page store's next handle and nothing of the
/// document changed but this page; on any other status neither the page nor
/// the page store changed.
pub fn page_init<P: ZathuraPlugin>(
    page: &mut PageRef,
    doc_store: &mut DataStore<P::DocumentData>,
    page_store: &mut DataStore<P::PageData>,
) -> (status: u32)
    requires
        old(doc_store).wf(),
        old(page_store).wf(),
        attached_in(old(page).spec_document()@.data, old(doc_store)),
    ensures
        final(doc_store).wf(),
        final(page_store).wf(),
        exists|data: &mut P::DocumentData, answer: Result<PageInfo<P>, PluginError>|
            {
                &&& #[trigger] call_ensures(P::page_init, (&*old(page), data), answer)
                &&& *data == old(doc_store).block(old(page).spec_document()@.data.unwrap())
                &&& final(doc_store)@ == old(doc_store)@.update(
                    old(page).spec_document()@.data.unwrap() as int,
                    Some(*final(data)),
                )
                &&& page_initialized::<P>(
                    old(page).spec_document()@,
                    old(page).spec_index(),
                    old(page_store)@,
                    answer,
                    final(page).spec_document()@,
                    final(page_store)@,
                    status,
                )
            },
        status <= 5,
        old(doc_store).same_but_block(
            old(page).spec_document()@.data.unwrap(),
            final(doc_store),
        ),
        final(page).spec_index() == old(page).spec_index(),
        status == 0 ==> {
            &&& final(page)@.data.is_some()
            &&& free_handle(old(page_store)@, final(page)@.data.unwrap())
            &&& final(page_store)@ == attached(
                old(page_store)@,
                final(page)@.data.unwrap(),
                final(page_store).block(final(page)@.data.unwrap()),
            )
            &&& final(page_store).live_blocks() == old(page_store).live_blocks() + 1
            &&& old(page).spec_document()@.updated_page(
                old(page).spec_index(),
                final(page)@,
                final(page).spec_document()@,
            )
        },
        status != 0 ==> *final(page) == *old(page) && final(page_store)@ == old(page_store)@,
{
    let handle = page.document().plugin_data().unwrap();
    let doc_data = doc_store.get_mut(handle).unwrap();
    let result = P::page_init(&*page, doc_data);
    finish_page_init::<P>(page, page_store, result)
}

/// Applies the plugin's answer to page-free: the page's data block is
/// released whatever the answer, and the status reports the answer.
pub fn finish_page_clear<T>(
    page: &PageRef,
    store: &mut DataStore<T>,
    result: Result<(), PluginError>,
) -> (status: u32)
    requires
        old(store).wf(),
        attached_in(page@.data, old(store)),
    ensures
        final(store).wf(),
        status == encode(result),
        final(store)@ =~= released(old(store)@, page@.data.unwrap()),
        final(store).live_blocks() + 1 == old(store).live_blocks(),
{
    let handle = page.plugin_data().unwrap();
    let _ = store.release(handle);
    to_zathura(result)
}

/// Frees the plugin's data of a page: runs the plugin's hook on the blocks
/// of the document and the page, then releases the page's block.
///
/// The plugin's page-free is called on the page and on the two blocks as
/// they came in; afterwards the document's block holds what the hook left
/// in it, and the status reports the hook's answer. Whatever the hook
/// answers, the page's block is released exactly once and the document's
/// block stays attached. With a plugin that keeps the hook the trait
/// provides, the callback succeeds and the document's block is as it was.
pub fn page_clear<P: ZathuraPlugin>(
    page: &PageRef,
    doc_store: &mut DataStore<P::DocumentData>,
    page_store: &mut DataStore<P::PageData>,
) -> (status: u32)
    requires
        old(doc_store).wf(),
        old(page_store).wf(),
        attached_in(page.spec_document()@.data, old(doc_store)),
        attached_in(page@.data, old(page_store)),
    ensures
        final(doc_store).wf(),
        final(page_store).wf(),
        exists|
            doc_data: &mut P::DocumentData,
            page_data: &mut P::PageData,
            answer: Result<(), PluginError>,
        |
            {
                &&& #[trigger] call_ensures(P::page_free, (page, doc_data, page_data), answer)
                &&& *doc_data == old(doc_store).block(page.spec_document()@.data.unwrap())
                &&& *page_data == old(page_store).block(page@.data.unwrap())
                &&& final(doc_store)@ == old(doc_store)@.update(
                    page.spec_document()@.data.unwrap() as int,
                    Some(*final(doc_data)),
                )
                &&& status == encode(answer)
            },
        status <= 5,
        P::keeps_page_free() ==> status == 0 && final(doc_store)@ =~= old(doc_store)@,
        old(doc_store).same_but_block(page.spec_document()@.data.unwrap(), final(doc_store)),
        final(page_store)@ =~= released(old(page_store)@, page@.data.unwrap()),
        final(page_store).live_blocks() + 1 == old(page_store).live_blocks(),
{
    let doc_handle = page.document().plugin_data().unwrap();
    let page_handle = page.plugin_data().unwrap();
    let doc_data = doc_store.get_mut(doc_handle).unwrap();
    let page_data = page_store.get_mut(page_handle).unwrap();
    let result = P::page_free(page, doc_data, page_data);
    finish_page_clear(page, page_store, result)
}

/// Renders a page to a drawing surface: hands the plugin the page, the
/// blocks of the document and the page, and the surface.
///
/// The plugin's page-render is called on the page, on the two blocks, on
/// the surface and on `printing` as they came in; afterwards the blocks and
/// the surface hold what the plugin left in them, and the status reports
/// its answer. So, whatever the answer, both blocks stay attached under
/// their handles and no other block is touched.
pub fn page_render_cairo<P: ZathuraPlugin>(
    page: &PageRef,
    doc_store: &mut DataStore<P::DocumentData>,
    page_store: &mut DataStore<P::PageData>,
    surface: &mut P::Surface,
    printing: bool,
) -> (status: u32)
    requires
        old(doc_store).wf(),
        old(page_store).wf(),
        attached_in(page.spec_document()@.data, old(doc_store)),
        attached_in(page@.data, old(page_store)),
    ensures
        final(doc_store).wf(),
        final(page_store).wf(),
        exists|
            doc_data: &mut P::DocumentData,
            page_data: &mut P::PageData,
            drawn: &mut P::Surface,
            answer: Result<(), PluginError>,
        |
            {
                &&& #[trigger] call_ensures(
                    P::page_render,
                    (page, doc_data, page_data, drawn, printing),
                    answer,
                )
                &&& *doc_data == old(doc_store).block(page.spec_document()@.data.unwrap())
                &&& *page_data == old(page_store).block(page@.data.unwrap())
                &&& *drawn == *old(surface)
                &&& final(doc_store)@ == old(doc_store)@.update(
                    page.spec_document()@.data.unwrap() as int,
                    Some(*final(doc_data)),
                )
                &&& final(page_store)@ == old(page_store)@.update(
                    page@.data.unwrap() as int,
                    Some(*final(page_data)),
                )
                &&& *final(surface) == *final(drawn)
                &&& status == encode(answer)
            },
        status <= 5,
        old(doc_store).same_but_block(page.spec_document()@.data.unwrap(), final(doc_store)),
        old(page_store).same_but_block(page@.data.unwrap(), final(page_store)),
{
    let doc_handle = page.document().plugin_data().unwrap();
    let page_handle = page.plugin_data().unwrap();
    let doc_data = doc_store.get_mut(doc_handle).unwrap();
    let page_data = page_store.get_mut(page_handle).unwrap();
    let result = P::page_render(page, doc_data, page_data, surface, printing);
    to_zathura(result)
}

} // verus!
