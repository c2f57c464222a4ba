//! LNURL payments and addresses.
use super::types::{LightningAddressInfo, LnurlInfo, LnurlPayInfo, RecoverLnurlPayResponse};
use crate::text::{same_text, text_option};
use vstd::prelude::*;
use vstd::string::*;

verus! {

broadcast use vstd::string::group_string_axioms;

/// The texts in a list of lists, where other values leave a gap.
pub type Rows = Seq<Seq<Option<Seq<char>>>>;

/// The rows of a JSON text that is a list of lists; nothing where it is none.
pub uninterp spec fn json_rows(text: Seq<char>) -> Option<Rows>;

pub open spec fn row_view(row: Vec<Option<String>>) -> Seq<Option<Seq<char>>> {
    row@.map_values(|cell: Option<String>| text_option(cell))
}

pub open spec fn rows_view(rows: Seq<Vec<Option<String>>>) -> Rows {
    rows.map_values(|row: Vec<Option<String>>| row_view(row))
}

/// `serde_json::from_str` to a list of lists of values: each value's text, where
/// it is a text, or nothing where the text is no such list.
#[verifier::external_body]
fn parse_rows(text: &str) -> (res: Option<Vec<Vec<Option<String>>>>)
    ensures
        match res {
            Some(rows) => json_rows(text@) == Some(rows_view(rows@)),
            None => json_rows(text@) is None,
        },
{
    let rows = serde_json::from_str::<Vec<Vec<serde_json::Value>>>(text).ok()?;
    Some(
        rows.into_iter().map(
            |row| row.into_iter().map(|cell| cell.as_str().map(str::to_string)).collect(),
        ).collect(),
    )
}

/// Whether a row describes the payment: a pair of texts of which the first is
/// `text/plain`.
pub open spec fn is_description(row: Seq<Option<Seq<char>>>) -> bool {
    row.len() == 2 && row[0] == Some("text/plain"@) && row[1] is Some
}

/// The first description at or behind `from`.
pub open spec fn description(rows: Rows, from: int) -> Option<Seq<char>>
    decreases rows.len() - from,
{
    if from < 0 || from >= rows.len() {
        None
    } else if is_description(rows[from]) {
        rows[from][1]
    } else {
        description(rows, from + 1)
    }
}

/// The first description in the rows.
pub fn description_in(rows: &Vec<Vec<Option<String>>>) -> (res: Option<String>)
    ensures
        text_option(res) == description(rows_view(rows@), 0),
{
    let ghost all = rows_view(rows@);
    let mut i: usize = 0;
    while i < rows.len()
        invariant
            i <= rows@.len(),
            all == rows_view(rows@),
            description(all, 0) == description(all, i as int),
        decreases rows@.len() - i,
    {
        let row = &rows[i];
        assert(all[i as int] == row_view(*row));
        if row.len() == 2 {
            assert(all[i as int][0] == text_option(row@[0]));
            assert(all[i as int][1] == text_option(row@[1]));
            if let (Some(key), Some(value)) = (&row[0], &row[1]) {
                if same_text(key.as_str(), "text/plain") {
                    return Some(value.clone());
                }
            }
        }
        i = i + 1;
    }
    None
}

impl LnurlPayInfo {
    /// The description in the payment's metadata.
    pub fn extract_description(&self) -> (res: Option<String>)
        ensures
            text_option(res) == match self.metadata {
                None => None,
                Some(text) => match json_rows(text@) {
                    None => None,
                    Some(rows) => description(rows, 0),
                },
            },
    {
        match &self.metadata {
            None => None,
            Some(text) => match parse_rows(text.as_str()) {
                None => None,
                Some(rows) => description_in(&rows),
            },
        }
    }
}

impl LnurlInfo {
    /// A URL and its encoding; a URL that cannot be encoded stands for itself.
    pub fn new(url: String, encoded: Option<String>) -> (res: LnurlInfo)
        ensures
            res.url == url,
            res.bech32 == match encoded {
                Some(t) => t,
                None => url,
            },
    {
        let bech32 = match encoded {
            Some(t) => t,
            None => url.clone(),
        };
        LnurlInfo { url, bech32 }
    }
}

impl LightningAddressInfo {
    /// The address that the server has stored, with the encoding of its URL.
    pub fn from_recovered(resp: RecoverLnurlPayResponse, encoded: Option<String>) -> (res:
        LightningAddressInfo)
        ensures
            res.description == resp.description,
            res.lightning_address == resp.lightning_address,
            res.username == resp.username,
            res.lnurl.url == resp.lnurl,
            res.lnurl.bech32 == match encoded {
                Some(t) => t,
                None => resp.lnurl,
            },
    {
        LightningAddressInfo {
            description: resp.description,
            lightning_address: resp.lightning_address,
            lnurl: LnurlInfo::new(resp.lnurl, encoded),
            username: resp.username,
        }
    }
}

/// The description is the second text of the first row that is a pair of texts with
/// `text/plain` as the first; without such a row there is none.
pub proof fn the_first_description_counts(rows: Rows, from: int)
    requires
        0 <= from <= rows.len(),
    ensures
        match description(rows, from) {
            Some(t) => exists|i: int| #[trigger] is_first_description(rows, from, i, t),
            None => forall|i: int|
                from <= i < rows.len() ==> !((#[trigger] rows[i]).len() == 2 && rows[i][0] == Some(
                    "text/plain"@,
                ) && rows[i][1] is Some),
        },
    decreases rows.len() - from,
{
    if from < rows.len() {
        if is_description(rows[from]) {
            assert(is_first_description(rows, from, from, rows[from][1]->0));
        } else {
            the_first_description_counts(rows, from + 1);
            if let Some(t) = description(rows, from) {
                let i = choose|i: int| #[trigger] is_first_description(rows, from + 1, i, t);
                assert(is_first_description(rows, from, i, t));
            }
        }
    }
}

/// Whether the row at `i` is the first from `from` on that describes, and with that
/// text.
pub open spec fn is_first_description(rows: Rows, from: int, i: int, t: Seq<char>) -> bool {
    &&& from <= i < rows.len()
    &&& rows[i].len() == 2
    &&& rows[i][0] == Some("text/plain"@)
    &&& rows[i][1] == Some(t)
    &&& forall|j: int|
        from <= j < i ==> !((#[trigger] rows[j]).len() == 2 && rows[j][0] == Some("text/plain"@)
            && rows[j][1] is Some)
}

} // verus!
