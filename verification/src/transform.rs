//! The record transformer: turns the fetched response into an ordered
//! reading list, validating each record's required fields.
//!
//! A record yields one item exactly when it carries a non-empty link at
//! `properties.URL.url`, a non-empty name at
//! `properties.Name.title[0].plain_text`, and a non-empty `created_time`;
//! a record short of any of these yields nothing and the rest of the
//! response is still processed. Slashes in the name become hyphens, so a
//! title can serve as a file name.

use vstd::prelude::*;

use crate::json::{arr_value, get_key, str_value, Json};

verus! {

/// The mathematical value of one reading-list item.
pub struct ItemView {
    pub title: Seq<char>,
    pub url: Seq<char>,
    pub date: Seq<char>,
}

/// One normalized entry: a title safe for use as a file name, the
/// canonical link, and the source's creation timestamp, unmodified.
pub struct ReadingListItem {
    pub title: String,
    pub url: String,
    pub date: String,
}

impl View for ReadingListItem {
    type V = ItemView;

    open spec fn view(&self) -> ItemView {
        ItemView { title: self.title@, url: self.url@, date: self.date@ }
    }
}

/// The values of a sequence of items.
pub open spec fn views_of(items: Seq<ReadingListItem>) -> Seq<ItemView> {
    Seq::new(items.len(), |i: int| items[i]@)
}

/// An ordered reading list, in source order.
pub struct ReadingList(pub Vec<ReadingListItem>);

impl View for ReadingList {
    type V = Seq<ItemView>;

    open spec fn view(&self) -> Seq<ItemView> {
        views_of(self.0@)
    }
}

/// `s` with every slash replaced by a hyphen.
pub open spec fn hyphenated(s: Seq<char>) -> Seq<char> {
    Seq::new(s.len(), |i: int| if s[i] == '/' { '-' } else { s[i] })
}

/// The record's link: the string at `properties.URL.url`, if present.
pub open spec fn record_url(record: Json) -> Option<Seq<char>> {
    match get_key(record, "properties"@) {
        Some(props) => match get_key(props, "URL"@) {
            Some(u) => match get_key(u, "url"@) {
                Some(v) => str_value(v),
                None => None,
            },
            None => None,
        },
        None => None,
    }
}

/// The record's name before normalization: the string at
/// `properties.Name.title[0].plain_text`, if present.
pub open spec fn record_raw_title(record: Json) -> Option<Seq<char>> {
    match get_key(record, "properties"@) {
        Some(props) => match get_key(props, "Name"@) {
            Some(name) => match get_key(name, "title"@) {
                Some(t) => match arr_value(t) {
                    Some(parts) => if parts.len() > 0 {
                        match get_key(parts[0], "plain_text"@) {
                            Some(pt) => str_value(pt),
                            None => None,
                        }
                    } else {
                        None
                    },
                    None => None,
                },
                None => None,
            },
            None => None,
        },
        None => None,
    }
}

/// The record's creation timestamp: the string at `created_time`, if
/// present.
pub open spec fn record_date(record: Json) -> Option<Seq<char>> {
    match get_key(record, "created_time"@) {
        Some(v) => str_value(v),
        None => None,
    }
}

/// The item a record yields: present exactly when all three required
/// fields are present and non-empty, with the title hyphenated. An empty
/// required field counts as missing.
pub open spec fn item_of_record(record: Json) -> Option<ItemView> {
    match (record_url(record), record_raw_title(record), record_date(record)) {
        (Some(url), Some(raw), Some(date)) => if url.len() > 0 && raw.len() > 0 && date.len()
            > 0 {
            Some(ItemView { title: hyphenated(raw), url, date })
        } else {
            None
        },
        _ => None,
    }
}

/// The items of a sequence of records, in source order, records that
/// yield nothing passed over.
pub open spec fn items_of_records(records: Seq<Json>) -> Seq<ItemView>
    decreases records.len(),
{
    if records.len() == 0 {
        Seq::empty()
    } else {
        let front = items_of_records(records.drop_last());
        match item_of_record(records.last()) {
            Some(item) => front.push(item),
            None => front,
        }
    }
}

/// What the transformer returns: the items of the `results` array, or
/// nothing when the response has no `results` array.
pub open spec fn transformed(response: Json) -> Option<Seq<ItemView>> {
    match get_key(response, "results"@) {
        Some(r) => match arr_value(r) {
            Some(records) => Some(items_of_records(records)),
            None => None,
        },
        None => None,
    }
}

/// Every well-formed record yields exactly one item, and the items keep
/// the records' order: when each record of a sequence yields an item,
/// the transformation yields one item per record, the record's own, in
/// place.
pub proof fn lemma_all_records_kept(records: Seq<Json>)
    requires
        forall|i: int| 0 <= i < records.len() ==> item_of_record(#[trigger] records[i]) is Some,
    ensures
        items_of_records(records).len() == records.len(),
        forall|i: int|
            0 <= i < records.len() ==> #[trigger] items_of_records(records)[i] == item_of_record(
                records[i],
            )->Some_0,
    decreases records.len(),
{
    if records.len() > 0 {
        lemma_all_records_kept(records.drop_last());
    }
}

/// A record that yields no item contributes nothing, and the records
/// around it are still processed: removing such a record leaves the
/// transformation's result unchanged.
pub proof fn lemma_bad_record_dropped(records: Seq<Json>, i: int)
    requires
        0 <= i < records.len(),
        item_of_record(records[i]) is None,
    ensures
        items_of_records(records) == items_of_records(records.remove(i)),
    decreases records.len(),
{
    if i == records.len() - 1 {
        assert(records.remove(i) =~= records.drop_last());
    } else {
        lemma_bad_record_dropped(records.drop_last(), i);
        assert(records.remove(i).drop_last() =~= records.drop_last().remove(i));
        assert(records.remove(i).last() == records.last());
    }
}

/// No title of a produced item holds a slash: every slash of the source
/// name was replaced with a hyphen before the title can serve as a file
/// name.
pub proof fn lemma_title_has_no_slash(record: Json)
    ensures
        match item_of_record(record) {
            Some(item) => forall|j: int| 0 <= j < item.title.len() ==> item.title[j] != '/',
            None => true,
        },
{
}

/// Replaces every slash of `s` with a hyphen.
pub fn slashes_to_hyphens(s: &str) -> (r: String)
    ensures
        r@ == hyphenated(s@),
{
    let n = s.unicode_len();
    let mut r = String::new();
    let mut i: usize = 0;
    while i < n
        invariant
            n == s@.len(),
            i <= n,
            r@ == hyphenated(s@).subrange(0, i as int),
        decreases n - i,
    {
        let c = s.get_char(i);
        if c == '/' {
            r.append("-");
            proof {
                reveal_strlit("-");
                assert(r@ =~= hyphenated(s@).subrange(0, i + 1 as int));
            }
        } else {
            let piece = s.substring_char(i, i + 1);
            r.append(piece);
            proof {
                assert(r@ =~= hyphenated(s@).subrange(0, i + 1 as int));
            }
        }
        i += 1;
    }
    proof {
        assert(hyphenated(s@).subrange(0, n as int) =~= hyphenated(s@));
    }
    r
}

/// Extracts the item a record yields, or nothing when a required field
/// is missing, of the wrong shape, or empty.
pub fn extract_item(record: &Json) -> (r: Option<ReadingListItem>)
    ensures
        match r {
            Some(item) => item_of_record(*record) == Some(item@),
            None => item_of_record(*record) is None,
        },
{
    let props = match record.get("properties") {
        Some(p) => p,
        None => { return None; },
    };
    let url_prop = match props.get("URL") {
        Some(p) => p,
        None => { return None; },
    };
    let url_field = match url_prop.get("url") {
        Some(p) => p,
        None => { return None; },
    };
    let url_s = match url_field.as_str() {
        Some(s) => s,
        None => { return None; },
    };
    let name_prop = match props.get("Name") {
        Some(p) => p,
        None => { return None; },
    };
    let title_field = match name_prop.get("title") {
        Some(p) => p,
        None => { return None; },
    };
    let parts = match title_field.as_arr() {
        Some(a) => a,
        None => { return None; },
    };
    if parts.len() == 0 {
        return None;
    }
    let text_field = match parts[0].get("plain_text") {
        Some(p) => p,
        None => { return None; },
    };
    let raw_title = match text_field.as_str() {
        Some(s) => s,
        None => { return None; },
    };
    let date_field = match record.get("created_time") {
        Some(p) => p,
        None => { return None; },
    };
    let date_s = match date_field.as_str() {
        Some(s) => s,
        None => { return None; },
    };
    if url_s.is_empty() || raw_title.is_empty() || date_s.is_empty() {
        return None;
    }
    let title = slashes_to_hyphens(raw_title);
    Some(ReadingListItem {
        title,
        url: String::from_str(url_s),
        date: String::from_str(date_s),
    })
}

/// Transforms the fetched response into the reading list: one item per
/// well-formed record of the `results` array, in source order. Returns
/// nothing, failing the run, exactly when the response holds no
/// `results` array; a list of zero items is a success.
pub fn transform(response: &Json) -> (r: Option<ReadingList>)
    ensures
        match r {
            Some(list) => transformed(*response) == Some(list@),
            None => transformed(*response) is None,
        },
{
    let results = match response.get("results") {
        Some(p) => p,
        None => { return None; },
    };
    let records = match results.as_arr() {
        Some(a) => a,
        None => { return None; },
    };
    let n = records.len();
    let mut out: Vec<ReadingListItem> = Vec::new();
    let mut i: usize = 0;
    while i < n
        invariant
            n == records@.len(),
            i <= n,
            transformed(*response) == Some(items_of_records(records@)),
            views_of(out@) == items_of_records(records@.subrange(0, i as int)),
        decreases n - i,
    {
        let picked = extract_item(&records[i]);
        proof {
            assert(records@.subrange(0, i + 1 as int).drop_last() =~= records@.subrange(
                0,
                i as int,
            ));
            assert(records@.subrange(0, i + 1 as int).last() == records@[i as int]);
        }
        match picked {
            Some(item) => {
                out.push(item);
                proof {
                    assert(views_of(out@) =~= items_of_records(records@.subrange(0, i + 1 as int)));
                }
            },
            None => {
                proof {
                    assert(views_of(out@) =~= items_of_records(records@.subrange(0, i + 1 as int)));
                }
            },
        }
        i += 1;
    }
    proof {
        assert(records@.subrange(0, n as int) =~= records@);
    }
    Some(ReadingList(out))
}

} // verus!
