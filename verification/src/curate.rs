//! Curation of the landed raw files, and the reading of their on-disk names.
//!
//! The curation itself is a fixed sweep of shell commands the driver runs
//! after a download pass; the library pins down which commands those are.

use vstd::prelude::*;

use crate::strutil::all_digits;
use crate::strutil::digits_val;
use crate::strutil::find_first;
use crate::strutil::first_index_of;
use crate::strutil::lemma_first_index_of;
use crate::strutil::parse_u64_digits;
use crate::strutil::str_views;

verus! {

/// The post-download sweep, in order: the superfluous second store file of
/// one chain goes; empty files go; `.x1` artefacts go; every archive is
/// unpacked, one file at a time so one malformed archive cannot stop the
/// rest.
pub fn curate_data_raw() -> (r: Vec<String>)
    ensures
        str_views(r@) =~= seq![
            "rm data_raw/rami_levy/storesfull* -f"@,
            "find data_raw -type f -empty -print -delete"@,
            "find data_raw -type f -name \"*.x1\" -print -delete"@,
            "for file in data_raw/*/*.gz; do gunzip $file; done"@,
        ],
{
    let mut v: Vec<String> = Vec::new();
    v.push("rm data_raw/rami_levy/storesfull* -f".to_owned());
    v.push("find data_raw -type f -empty -print -delete".to_owned());
    v.push("find data_raw -type f -name \"*.x1\" -print -delete".to_owned());
    v.push("for file in data_raw/*/*.gz; do gunzip $file; done".to_owned());
    proof {
        assert(str_views(v@) =~= seq![
            "rm data_raw/rami_levy/storesfull* -f"@,
            "find data_raw -type f -empty -print -delete"@,
            "find data_raw -type f -name \"*.x1\" -print -delete"@,
            "for file in data_raw/*/*.gz; do gunzip $file; done"@,
        ]);
    }
    v
}

/// A processed file's name does not read back as numbers.
#[derive(PartialEq, Eq, Structural, Copy, Clone, Debug)]
pub enum NameError {
    BadName,
}

/// What `extract_chain_id_and_store_id` reads off a processed filename
/// shaped `<chain>_<store>.<ext>`: the two numbers, or nothing where the
/// dot, the underscore, a digit or a machine bound is missing.
pub open spec fn spec_chain_and_store(name: Seq<char>) -> Result<(int, int), NameError> {
    if first_index_of(name, '.') == -1 {
        Err(NameError::BadName)
    } else {
        let stem = name.take(first_index_of(name, '.'));
        if first_index_of(stem, '_') == -1 {
            Err(NameError::BadName)
        } else {
            let chain = stem.take(first_index_of(stem, '_'));
            let store = stem.skip(first_index_of(stem, '_') + 1);
            if chain.len() > 0 && all_digits(chain) && digits_val(chain) <= i64::MAX as int
                && store.len() > 0 && all_digits(store) && digits_val(store) <= i32::MAX as int {
                Ok((digits_val(chain), digits_val(store)))
            } else {
                Err(NameError::BadName)
            }
        }
    }
}

/// Reads the chain and store a processed file belongs to off its name.
pub fn extract_chain_id_and_store_id(name: &str) -> (r: Result<(i64, i32), NameError>)
    ensures
        match r {
            Ok(p) => spec_chain_and_store(name@) == Ok::<(int, int), NameError>(
                (p.0 as int, p.1 as int),
            ),
            Err(e) => spec_chain_and_store(name@) == Err::<(int, int), NameError>(e),
        },
{
    let dot = match find_first(name, '.') {
        None => {
            return Err(NameError::BadName);
        },
        Some(i) => i,
    };
    proof {
        lemma_first_index_of(name@, '.');
    }
    let stem = name.substring_char(0, dot);
    proof {
        assert(stem@ =~= name@.take(first_index_of(name@, '.')));
    }
    let us = match find_first(stem, '_') {
        None => {
            return Err(NameError::BadName);
        },
        Some(i) => i,
    };
    proof {
        lemma_first_index_of(stem@, '_');
    }
    let stem_len = stem.unicode_len();
    let chain_part = stem.substring_char(0, us);
    let store_part = stem.substring_char(us + 1, stem_len);
    proof {
        assert(chain_part@ =~= stem@.take(first_index_of(stem@, '_')));
        assert(store_part@ =~= stem@.skip(first_index_of(stem@, '_') + 1));
    }
    let chain = match parse_u64_digits(chain_part) {
        None => {
            return Err(NameError::BadName);
        },
        Some(v) => v,
    };
    let store = match parse_u64_digits(store_part) {
        None => {
            return Err(NameError::BadName);
        },
        Some(v) => v,
    };
    if chain > i64::MAX as u64 || store > i32::MAX as u64 {
        return Err(NameError::BadName);
    }
    Ok((chain as i64, store as i32))
}

} // verus!
