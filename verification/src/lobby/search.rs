//! Queries that search for lobbies by their metadata.

use vstd::prelude::*;
use vstd::string::*;
use crate::text::{signed_decimal_string, signed_decimal_text};

verus! {

/// The number of lobbies that a search returns unless told otherwise.
pub const DEFAULT_LIMIT: u32 = 25;

/// How the value of a key is compared with the value of the filter.
#[derive(Copy, Clone, Debug, PartialEq, Eq, Structural)]
pub enum LobbySearchComparison {
    LessThanOrEqual,
    LessThan,
    Equal,
    GreaterThan,
    GreaterThanOrEqual,
    NotEqual,
}

impl LobbySearchComparison {
    /// The number that stands for the comparison on the wire.
    pub fn code(self) -> (c: i8)
        ensures
            c == match self {
                LobbySearchComparison::LessThanOrEqual => -2i8,
                LobbySearchComparison::LessThan => -1i8,
                LobbySearchComparison::Equal => 0i8,
                LobbySearchComparison::GreaterThan => 1i8,
                LobbySearchComparison::GreaterThanOrEqual => 2i8,
                LobbySearchComparison::NotEqual => 3i8,
            },
    {
        match self {
            LobbySearchComparison::LessThanOrEqual => -2,
            LobbySearchComparison::LessThan => -1,
            LobbySearchComparison::Equal => 0,
            LobbySearchComparison::GreaterThan => 1,
            LobbySearchComparison::GreaterThanOrEqual => 2,
            LobbySearchComparison::NotEqual => 3,
        }
    }
}

/// How far from the user's region a search looks.
#[derive(Copy, Clone, Debug, PartialEq, Eq, Structural)]
pub enum LobbySearchDistance {
    /// The same region.
    Local,
    /// The same region and those next to it.
    Default,
    /// Far away, such as from the US to the EU.
    Extended,
    /// Everywhere.
    Global,
}

impl Default for LobbySearchDistance {
    fn default() -> (r: LobbySearchDistance)
        ensures
            r == LobbySearchDistance::Default,
    {
        LobbySearchDistance::Default
    }
}

/// What a value is read as before it is compared.
#[derive(Copy, Clone, Debug, PartialEq, Eq, Structural)]
pub enum LobbySearchCast {
    String,
    Number,
}

/// One condition of a search.
#[derive(Debug, Clone, PartialEq, Eq)]
pub struct SearchFilter {
    pub key: String,
    pub comparison: LobbySearchComparison,
    pub cast: LobbySearchCast,
    pub value: String,
}

/// One order of a search: by nearness of a key's value to `near_value`.
#[derive(Debug, Clone, PartialEq, Eq)]
pub struct SearchSort {
    pub key: String,
    pub cast: LobbySearchCast,
    pub near_value: String,
}

/// What a filter or a sort looks at.
#[derive(Debug, Clone, Copy)]
pub enum SearchKey<'md> {
    /// The id of the owner of the lobby.
    OwnerId,
    /// The capacity of the lobby.
    Capacity,
    /// The number of free places in the lobby.
    Slots,
    /// The value of a key of the metadata.
    Metadata(&'md str),
}

impl<'md> SearchKey<'md> {
    /// The key that looks at the metadata under `key`.
    pub fn from(key: &'md str) -> (r: SearchKey<'md>)
        ensures
            r matches SearchKey::Metadata(k) && k@ == key@,
    {
        SearchKey::Metadata(key)
    }

    /// The name of the key on the wire.
    pub open spec fn spec_text(self) -> Seq<char> {
        match self {
            SearchKey::OwnerId => "owner_id"@,
            SearchKey::Capacity => "capacity"@,
            SearchKey::Slots => "slots"@,
            SearchKey::Metadata(key) => "metadata."@ + key@,
        }
    }

    /// Writes the name of the key on the wire: a key of the metadata has
    /// `metadata.` in front.
    pub fn to_text(&self) -> (text: String)
        ensures
            text@ == self.spec_text(),
    {
        match self {
            SearchKey::OwnerId => "owner_id".to_owned(),
            SearchKey::Capacity => "capacity".to_owned(),
            SearchKey::Slots => "slots".to_owned(),
            SearchKey::Metadata(key) => {
                let mut text = "metadata.".to_owned();
                text.append(key);
                text
            },
        }
    }
}

/// The value that a key is compared with.
#[derive(Debug, Clone, PartialEq, Eq)]
pub enum SearchValue {
    String(String),
    Number(String),
}

impl SearchValue {
    /// A value that is compared as text.
    pub fn string(s: String) -> (v: SearchValue)
        ensures
            v == SearchValue::String(s),
    {
        SearchValue::String(s)
    }

    /// A value that is compared as a number.
    pub fn number(n: i64) -> (v: SearchValue)
        ensures
            v matches SearchValue::Number(t) && t@ == signed_decimal_text(n as int),
    {
        SearchValue::Number(signed_decimal_string(n))
    }

    /// What the value is read as.
    pub fn cast(&self) -> (c: LobbySearchCast)
        ensures
            c == match *self {
                SearchValue::String(_) => LobbySearchCast::String,
                SearchValue::Number(_) => LobbySearchCast::Number,
            },
    {
        match self {
            SearchValue::String(_) => LobbySearchCast::String,
            SearchValue::Number(_) => LobbySearchCast::Number,
        }
    }

    /// The text of the value.
    pub fn into_string(self) -> (s: String)
        ensures
            s == match self {
                SearchValue::String(t) => t,
                SearchValue::Number(t) => t,
            },
    {
        match self {
            SearchValue::String(s) => s,
            SearchValue::Number(s) => s,
        }
    }
}

/// A search for lobbies. Without a limit it finds up to 25 lobbies in the
/// user's region and those next to it.
#[derive(Debug, Clone, PartialEq, Eq)]
pub struct SearchQuery {
    pub filter: Vec<SearchFilter>,
    pub sort: Vec<SearchSort>,
    pub limit: u32,
    pub distance: LobbySearchDistance,
}

impl SearchQuery {
    /// Adds a condition: the value of `key` compared with `value`.
    pub fn add_filter<'md>(
        self,
        key: SearchKey<'md>,
        comparison: LobbySearchComparison,
        value: SearchValue,
    ) -> (r: SearchQuery)
        ensures
            r.sort == self.sort,
            r.limit == self.limit,
            r.distance == self.distance,
            r.filter@.len() == self.filter@.len() + 1,
            r.filter@.drop_last() == self.filter@,
            r.filter@.last().key@ == key.spec_text(),
            r.filter@.last().comparison == comparison,
            r.filter@.last().cast == match value {
                SearchValue::String(_) => LobbySearchCast::String,
                SearchValue::Number(_) => LobbySearchCast::Number,
            },
            r.filter@.last().value == match value {
                SearchValue::String(t) => t,
                SearchValue::Number(t) => t,
            },
    {
        let mut q = self;
        let cast = value.cast();
        q.filter.push(SearchFilter { key: key.to_text(), comparison, cast, value: value.into_string() });
        assert(q.filter@.drop_last() =~= self.filter@);
        q
    }

    /// Adds an order: lobbies whose value of `key` is nearer to `value`
    /// come first.
    pub fn add_sort<'md>(self, key: SearchKey<'md>, value: SearchValue) -> (r: SearchQuery)
        ensures
            r.filter == self.filter,
            r.limit == self.limit,
            r.distance == self.distance,
            r.sort@.len() == self.sort@.len() + 1,
            r.sort@.drop_last() == self.sort@,
            r.sort@.last().key@ == key.spec_text(),
            r.sort@.last().cast == match value {
                SearchValue::String(_) => LobbySearchCast::String,
                SearchValue::Number(_) => LobbySearchCast::Number,
            },
            r.sort@.last().near_value == match value {
                SearchValue::String(t) => t,
                SearchValue::Number(t) => t,
            },
    {
        let mut q = self;
        let cast = value.cast();
        q.sort.push(SearchSort { key: key.to_text(), cast, near_value: value.into_string() });
        assert(q.sort@.drop_last() =~= self.sort@);
        q
    }

    /// Sets the most lobbies that the search returns. No number, and zero,
    /// leave the limit as it is.
    pub fn limit(self, max_results: Option<u32>) -> (r: SearchQuery)
        ensures
            r == (SearchQuery {
                limit: match max_results {
                    Some(mr) if mr > 0 => mr,
                    _ => self.limit,
                },
                ..self
            }),
    {
        let mut q = self;
        if let Some(mr) = max_results {
            if mr > 0 {
                q.limit = mr;
            }
        }
        q
    }

    /// Sets how far from the user's region the search looks.
    pub fn distance(self, distance: LobbySearchDistance) -> (r: SearchQuery)
        ensures
            r == (SearchQuery { distance, ..self }),
    {
        let mut q = self;
        q.distance = distance;
        q
    }
}

impl Default for SearchQuery {
    fn default() -> (r: SearchQuery)
        ensures
            r.filter@.len() == 0,
            r.sort@.len() == 0,
            r.limit == DEFAULT_LIMIT,
            r.distance == LobbySearchDistance::Default,
    {
        SearchQuery {
            filter: Vec::new(),
            sort: Vec::new(),
            limit: DEFAULT_LIMIT,
            distance: LobbySearchDistance::Default,
        }
    }
}

} // verus!
