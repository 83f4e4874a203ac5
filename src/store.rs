use vstd::prelude::*;

use crate::text::str_eq;
use crate::types::ClipboardItem;
use crate::watcher::TEXT_HISTORY_CAP;

verus! {

/// `item` stands for a file rather than a text.
pub open spec fn is_file_item(item: ClipboardItem) -> bool {
    item.content_type@ == "file"@
}

/// The stored items of one kind, files or texts, in stored order.
pub open spec fn items_of_kind(rows: Seq<ClipboardItem>, files: bool) -> Seq<ClipboardItem> {
    rows.filter(|i: ClipboardItem| is_file_item(i) == files)
}

/// At most `limit` entries of `s`, starting at `offset`.
pub open spec fn page(s: Seq<ClipboardItem>, offset: nat, limit: nat) -> Seq<ClipboardItem> {
    if offset >= s.len() {
        Seq::empty()
    } else if s.len() - offset > limit {
        s.subrange(offset as int, (offset + limit) as int)
    } else {
        s.subrange(offset as int, s.len() as int)
    }
}

/// Copies the items of one kind.
fn select_kind(rows: &Vec<ClipboardItem>, files: bool) -> (r: Vec<ClipboardItem>)
    ensures
        r@ == items_of_kind(rows@, files),
{
    let ghost p = |i: ClipboardItem| is_file_item(i) == files;
    let mut r: Vec<ClipboardItem> = Vec::new();
    let mut k: usize = 0;
    while k < rows.len()
        invariant
            k <= rows@.len(),
            p == (|i: ClipboardItem| is_file_item(i) == files),
            r@ == rows@.subrange(0, k as int).filter(p),
        decreases rows@.len() - k,
    {
        proof {
            assert(rows@.subrange(0, k + 1).drop_last() =~= rows@.subrange(0, k as int));
            reveal(Seq::filter);
        }
        if str_eq(rows[k].content_type.as_str(), "file") == files {
            r.push(rows[k].clone());
        }
        assert(rows@.subrange(0, k + 1).last() == rows@[k as int]);
        k = k + 1;
    }
    assert(rows@.subrange(0, rows@.len() as int) =~= rows@);
    r
}

/// Copies at most `limit` entries of `s`, starting at `offset`.
fn take_page(s: &Vec<ClipboardItem>, offset: u32, limit: u32) -> (r: Vec<ClipboardItem>)
    ensures
        r@ == page(s@, offset as nat, limit as nat),
{
    let mut r: Vec<ClipboardItem> = Vec::new();
    if offset as usize >= s.len() {
        assert(r@ =~= page(s@, offset as nat, limit as nat));
        return r;
    }
    let start = offset as usize;
    let end = if s.len() - start > limit as usize {
        start + limit as usize
    } else {
        s.len()
    };
    let mut k = start;
    while k < end
        invariant
            start <= k <= end,
            end <= s@.len(),
            r@ == s@.subrange(start as int, k as int),
        decreases end - k,
    {
        r.push(s[k].clone());
        assert(r@ =~= s@.subrange(start as int, k + 1));
        k = k + 1;
    }
    assert(r@ =~= page(s@, offset as nat, limit as nat));
    r
}

/// A page of the stored text items; `rows` are all stored items, newest
/// first.
pub fn load_clipboard_history_paginated(rows: &Vec<ClipboardItem>, offset: u32, limit: u32) -> (r: Vec<
    ClipboardItem,
>)
    ensures
        r@ == page(items_of_kind(rows@, false), offset as nat, limit as nat),
{
    take_page(&select_kind(rows, false), offset, limit)
}

/// The text history loaded at start: the newest stored text items, as many
/// as the watcher keeps.
pub fn load_clipboard_history_from_db(rows: &Vec<ClipboardItem>) -> (r: Vec<ClipboardItem>)
    ensures
        r@ == page(items_of_kind(rows@, false), 0, TEXT_HISTORY_CAP as nat),
{
    load_clipboard_history_paginated(rows, 0, TEXT_HISTORY_CAP as u32)
}

/// A page of the stored file items; `rows` are all stored items, newest
/// first.
pub fn get_clipboard_files_paginated_from_db(rows: &Vec<ClipboardItem>, offset: u32, limit: u32) -> (r: Vec<
    ClipboardItem,
>)
    ensures
        r@ == page(items_of_kind(rows@, true), offset as nat, limit as nat),
{
    take_page(&select_kind(rows, true), offset, limit)
}

/// The number of stored text items.
pub fn get_clipboard_history_count_from_db(rows: &Vec<ClipboardItem>) -> (r: usize)
    ensures
        r == items_of_kind(rows@, false).len(),
{
    select_kind(rows, false).len()
}

/// The number of stored file items.
pub fn get_clipboard_files_count_from_db(rows: &Vec<ClipboardItem>) -> (r: usize)
    ensures
        r == items_of_kind(rows@, true).len(),
{
    select_kind(rows, true).len()
}

} // verus!
