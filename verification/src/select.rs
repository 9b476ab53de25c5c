//! Result selection: zero, one, or many matching extensions.
//!
//! With no match the search fails; a single match is taken as is, without
//! consulting the user at all; with several matches the user's 1-based
//! choice — obtained by the caller through whatever prompt it likes and
//! read with [`crate::text::parse_choice`] — picks the record. The
//! selection policy itself is pure and is fully pinned down here.

use crate::error::Error;
use crate::records::Extension;
use crate::text::decimal_digits;
use crate::text::decimal_string;
use vstd::prelude::*;
use vstd::string::StringExecFns;

verus! {

/// Applies the selection policy to the response's records and the user's
/// choice, and returns the index of the chosen record.
///
/// * No records: the search failed; the error carries the search term. The
///   choice is never consulted and nothing ever indexes the empty list.
/// * Exactly one record: index 0, whatever the choice holds.
/// * Several records: a choice `c` with `1 <= c <= len` picks index
///   `c - 1`; a choice outside that range is rejected, and an absent
///   choice (input that was not an integer) is a parse failure.
pub fn select(records: &Vec<Extension>, choice: Option<u64>, search: &str) -> (r: Result<
    usize,
    Error,
>)
    ensures
        records@.len() == 0 ==> (r matches Err(e) && e matches Error::Search(term) && term@
            == search@),
        records@.len() == 1 ==> r == Ok::<usize, Error>(0),
        records@.len() > 1 ==> match choice {
            Some(c) => if 1 <= c && c <= records@.len() {
                r == Ok::<usize, Error>((c - 1) as usize)
            } else {
                r == Err::<usize, Error>(Error::IndexOutOfBound)
            },
            None => r == Err::<usize, Error>(Error::ParseInt),
        },
        r matches Ok(i) ==> i < records@.len(),
{
    let n: usize = records.len();
    if n == 0 {
        Err(Error::Search(search.to_owned()))
    } else if n == 1 {
        Ok(0)
    } else {
        match choice {
            Some(c) => {
                if 1 <= c && c <= n as u64 {
                    Ok((c - 1) as usize)
                } else {
                    Err(Error::IndexOutOfBound)
                }
            },
            None => Err(Error::ParseInt),
        }
    }
}

/// One line of the indexed listing shown when several records match:
/// `[index] : name by publisher vversion`.
pub fn listing_line(index: u64, name: &str, publisher: &str, version: &str) -> (s: String)
    ensures
        s@ == "["@ + decimal_digits(index as nat) + "] : "@ + name@ + " by "@ + publisher@ + " v"@
            + version@,
{
    let mut s: String = "[".to_owned();
    s.append(decimal_string(index).as_str());
    s.append("] : ");
    s.append(name);
    s.append(" by ");
    s.append(publisher);
    s.append(" v");
    s.append(version);
    s
}

} // verus!
