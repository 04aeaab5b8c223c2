//! Finding the configuration file where none was named.
//!
//! The program around this library lists the project root. Which of the
//! entries is the configuration is decided here.

use crate::error::{Error, ErrorView};
use crate::text::{contains, occurs};
use vstd::prelude::*;

verus! {

/// What the name of a configuration file holds.
pub open spec fn config_file_name() -> Seq<char> {
    "launch.json"@
}

/// An entry of a directory.
#[derive(Debug, PartialEq, Eq)]
pub struct Entry {
    pub path: String,
    pub is_file: bool,
}

/// An [`Entry`] as a mathematical value.
pub ghost struct EntryView {
    pub path: Seq<char>,
    pub is_file: bool,
}

impl View for Entry {
    type V = EntryView;

    open spec fn view(&self) -> EntryView {
        EntryView { path: self.path@, is_file: self.is_file }
    }
}

/// What listing a directory gave for one entry: the entry, or the cause for
/// which it could not be read. As a mathematical value.
pub open spec fn listing_view(listing: Seq<Result<Entry, String>>) -> Seq<Result<EntryView, Seq<char>>> {
    Seq::new(
        listing.len(),
        |i: int|
            match listing[i] {
                Ok(entry) => Ok(entry@),
                Err(cause) => Err(cause@),
            },
    )
}

impl EntryView {
    /// The entry is a configuration file: a file whose path holds the name
    /// of one.
    pub open spec fn is_config(self) -> bool {
        self.is_file && occurs(self.path, config_file_name())
    }
}

/// What one entry of the listing says about the configuration: its path
/// where it is a configuration file, nothing where it is not, and an error
/// where the entry could not be read.
pub open spec fn config_entry(entry: Result<EntryView, Seq<char>>) -> Result<
    Option<Seq<char>>,
    ErrorView,
> {
    match entry {
        Ok(e) => if e.is_config() {
            Ok(Some(e.path))
        } else {
            Ok(None)
        },
        Err(cause) => Err(ErrorView::Io(cause)),
    }
}

/// What the listing says about the configuration: what its first entry says
/// that is a configuration file or could not be read, and nothing where
/// there is no such entry.
pub open spec fn default_config(listing: Seq<Result<EntryView, Seq<char>>>) -> Result<
    Option<Seq<char>>,
    ErrorView,
>
    decreases listing.len(),
{
    if listing.len() == 0 {
        Ok(None)
    } else {
        match config_entry(listing.first()) {
            Ok(None) => default_config(listing.drop_first()),
            found => found,
        }
    }
}

/// The configuration to use: the one that was named, and otherwise the one
/// that the listing of the project root holds. Without either there is none.
pub open spec fn chosen_config(
    named: Option<Seq<char>>,
    listing: Seq<Result<EntryView, Seq<char>>>,
) -> Result<Seq<char>, ErrorView> {
    match named {
        Some(path) => Ok(path),
        None => match default_config(listing) {
            Ok(Some(path)) => Ok(path),
            Ok(None) => Err(ErrorView::NoConfig),
            Err(e) => Err(e),
        },
    }
}

/// A path that may have been found, or an error, as a mathematical value.
pub open spec fn found_view(found: Result<Option<String>, Error>) -> Result<
    Option<Seq<char>>,
    ErrorView,
> {
    match found {
        Ok(path) => Ok(path.deep_view()),
        Err(e) => Err(e@),
    }
}

/// A path, or an error, as a mathematical value.
pub open spec fn path_view(path: Result<String, Error>) -> Result<Seq<char>, ErrorView> {
    match path {
        Ok(p) => Ok(p@),
        Err(e) => Err(e@),
    }
}

/// Looks at one entry of the listing.
pub fn try_get_config_entry(entry: &Result<Entry, String>) -> (found: Result<Option<String>, Error>)
    ensures
        found_view(found) == config_entry(
            match *entry {
                Ok(e) => Ok(e@),
                Err(cause) => Err(cause@),
            },
        ),
{
    match entry {
        Ok(e) => if e.is_file && contains(e.path.as_str(), "launch.json") {
            Ok(Some(e.path.clone()))
        } else {
            Ok(None)
        },
        Err(cause) => Err(Error::Io(cause.clone())),
    }
}

/// Looks through the listing of the project root for a configuration file.
/// The first entry that is one, or that could not be read, decides.
pub fn search_default_config(listing: &Vec<Result<Entry, String>>) -> (found: Result<
    Option<String>,
    Error,
>)
    ensures
        found_view(found) == default_config(listing_view(listing@)),
{
    let ghost all = listing_view(listing@);
    let mut i: usize = 0;
    assert(all.skip(0) =~= all);
    while i < listing.len()
        invariant
            i <= listing@.len(),
            all == listing_view(listing@),
            default_config(all) == default_config(all.skip(i as int)),
        decreases listing@.len() - i,
    {
        let found = try_get_config_entry(&listing[i]);
        assert(all.skip(i as int).drop_first() =~= all.skip(i + 1));
        match found {
            Ok(None) => {},
            other => {
                return other;
            },
        }
        i += 1;
    }
    Ok(None)
}

/// Chooses the configuration: the one that was named, and otherwise the one
/// found in the listing of the project root. Where none was named and none
/// is found, the answer is `NoConfig`.
pub fn locate_config(named: &Option<String>, listing: &Vec<Result<Entry, String>>) -> (path: Result<
    String,
    Error,
>)
    ensures
        path_view(path) == chosen_config(named.deep_view(), listing_view(listing@)),
{
    match named {
        Some(path) => Ok(path.clone()),
        None => match search_default_config(listing) {
            Ok(Some(path)) => Ok(path),
            Ok(None) => Err(Error::NoConfig),
            Err(e) => Err(e),
        },
    }
}

} // verus!
