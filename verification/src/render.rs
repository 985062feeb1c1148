//! The page writer's computation: the name and the full text of the file
//! each item becomes, and a model of what writing them does to a
//! directory of files.
//!
//! The writing itself is plain file I/O and happens outside the crate:
//! it takes the (path, text) pairs produced here and stores each text
//! under its path, replacing an existing file of the same name.

use vstd::prelude::*;

use crate::transform::{ItemView, ReadingList, ReadingListItem};

verus! {

/// The file name an item is stored under: `<output_path><title>.md`.
pub open spec fn page_path_of(output_path: Seq<char>, item: ItemView) -> Seq<char> {
    output_path + item.title + ".md"@
}

/// The full text of an item's page: a fixed front-matter block carrying
/// the title, the date and the link, and the link again as the body.
pub open spec fn page_text_of(item: ItemView) -> Seq<char> {
    "---\ntitle: \""@ + item.title + "\"\ndate: "@ + item.date + "\ndraft: false\naffiliatelink: "@
        + item.url + "\n---\n"@ + item.url + "\n"@
}

/// Renders one item's page text.
pub fn render_page(item: &ReadingListItem) -> (r: String)
    ensures
        r@ == page_text_of(item@),
{
    let mut r = String::from_str("---\ntitle: \"");
    r.append(item.title.as_str());
    r.append("\"\ndate: ");
    r.append(item.date.as_str());
    r.append("\ndraft: false\naffiliatelink: ");
    r.append(item.url.as_str());
    r.append("\n---\n");
    r.append(item.url.as_str());
    r.append("\n");
    proof {
        assert(r@ =~= page_text_of(item@));
    }
    r
}

/// Builds one item's file name under the output directory.
pub fn render_path(output_path: &str, item: &ReadingListItem) -> (r: String)
    ensures
        r@ == page_path_of(output_path@, item@),
{
    let mut r = String::from_str(output_path);
    r.append(item.title.as_str());
    r.append(".md");
    proof {
        assert(r@ =~= page_path_of(output_path@, item@));
    }
    r
}

/// Renders the whole list: one (file name, page text) pair per item, in
/// list order.
pub fn render_pages(output_path: &str, list: &ReadingList) -> (r: Vec<(String, String)>)
    ensures
        r@.len() == list@.len(),
        forall|i: int|
            0 <= i < list@.len() ==> (#[trigger] r@[i]).0@ == page_path_of(
                output_path@,
                list@[i],
            ) && r@[i].1@ == page_text_of(list@[i]),
{
    let n = list.0.len();
    let mut out: Vec<(String, String)> = Vec::new();
    let mut i: usize = 0;
    while i < n
        invariant
            n == list.0@.len(),
            i <= n,
            out@.len() == i,
            forall|k: int|
                0 <= k < i ==> (#[trigger] out@[k]).0@ == page_path_of(output_path@, list@[k])
                    && out@[k].1@ == page_text_of(list@[k]),
        decreases n - i,
    {
        let item = &list.0[i];
        let path = render_path(output_path, item);
        let text = render_page(item);
        out.push((path, text));
        i += 1;
    }
    out
}

/// A directory of files, as the writer sees it: each file name mapped to
/// that file's text.
pub open spec fn write_one(
    files: Map<Seq<char>, Seq<char>>,
    output_path: Seq<char>,
    item: ItemView,
) -> Map<Seq<char>, Seq<char>> {
    files.insert(page_path_of(output_path, item), page_text_of(item))
}

/// The directory after the whole list is written in order: each item's
/// page stored under its name, a later page replacing an earlier file of
/// the same name, every unrelated file untouched.
pub open spec fn write_all(
    files: Map<Seq<char>, Seq<char>>,
    output_path: Seq<char>,
    items: Seq<ItemView>,
) -> Map<Seq<char>, Seq<char>>
    decreases items.len(),
{
    if items.len() == 0 {
        files
    } else {
        write_one(write_all(files, output_path, items.drop_last()), output_path, items.last())
    }
}

/// The pages of the list alone, as a directory: what `write_all` lays
/// over the files already present.
pub open spec fn pages_map(output_path: Seq<char>, items: Seq<ItemView>) -> Map<
    Seq<char>,
    Seq<char>,
>
    decreases items.len(),
{
    if items.len() == 0 {
        Map::empty()
    } else {
        write_one(pages_map(output_path, items.drop_last()), output_path, items.last())
    }
}

/// Writing the list lays its pages over the directory: the result maps
/// each page name to its text and keeps every other file as it was.
pub proof fn lemma_write_all_is_overlay(
    files: Map<Seq<char>, Seq<char>>,
    output_path: Seq<char>,
    items: Seq<ItemView>,
)
    ensures
        write_all(files, output_path, items) == files.union_prefer_right(
            pages_map(output_path, items),
        ),
    decreases items.len(),
{
    if items.len() == 0 {
        assert(write_all(files, output_path, items) =~= files.union_prefer_right(
            pages_map(output_path, items),
        ));
    } else {
        lemma_write_all_is_overlay(files, output_path, items.drop_last());
        assert(write_all(files, output_path, items) =~= files.union_prefer_right(
            pages_map(output_path, items),
        ));
    }
}

/// The writer is idempotent: writing the same list twice leaves the
/// directory exactly as one write does, file for file and text for text.
pub proof fn lemma_writer_idempotent(
    files: Map<Seq<char>, Seq<char>>,
    output_path: Seq<char>,
    items: Seq<ItemView>,
)
    ensures
        write_all(write_all(files, output_path, items), output_path, items) == write_all(
            files,
            output_path,
            items,
        ),
{
    lemma_write_all_is_overlay(files, output_path, items);
    lemma_write_all_is_overlay(write_all(files, output_path, items), output_path, items);
    assert(write_all(write_all(files, output_path, items), output_path, items) =~= write_all(
        files,
        output_path,
        items,
    ));
}

} // verus!
