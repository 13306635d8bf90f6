pub mod db;
pub mod interrupt;
pub mod keyword;
pub mod sqlite;

use vstd::prelude::*;

verus! {

/// Where a suggestion comes from. In the database a provider is stored as
/// its integer code.
#[derive(Debug, Clone, Copy, PartialEq, Eq, Structural)]
pub enum SuggestionProvider {
    Amp,
    Wikipedia,
}

impl SuggestionProvider {
    /// The integer code under which the provider is stored.
    pub open spec fn code(self) -> int {
        match self {
            SuggestionProvider::Amp => 1,
            SuggestionProvider::Wikipedia => 2,
        }
    }

    /// The provider stored under an integer code, if any.
    pub open spec fn from_code(code: int) -> Option<SuggestionProvider> {
        if code == 1 {
            Some(SuggestionProvider::Amp)
        } else if code == 2 {
            Some(SuggestionProvider::Wikipedia)
        } else {
            None
        }
    }

    /// The integer code that is written to the database for this provider.
    pub fn to_sql_code(&self) -> (c: i64)
        ensures
            c == self.code(),
    {
        match self {
            SuggestionProvider::Amp => 1,
            SuggestionProvider::Wikipedia => 2,
        }
    }

    /// Reads a provider back from the integer code stored in the database.
    pub fn from_sql_code(code: i64) -> (p: Option<SuggestionProvider>)
        ensures
            p == SuggestionProvider::from_code(code as int),
    {
        if code == 1 {
            Some(SuggestionProvider::Amp)
        } else if code == 2 {
            Some(SuggestionProvider::Wikipedia)
        } else {
            None
        }
    }
}

/// A provider read back from the code that was written for it is the same
/// provider, and no two providers share a code.
pub proof fn lemma_provider_code_round_trip(p: SuggestionProvider, q: SuggestionProvider)
    ensures
        SuggestionProvider::from_code(p.code()) == Some(p),
        p.code() == q.code() ==> p == q,
{
}

/// The identifier of the Remote Settings record that suggestions came from.
pub struct SuggestRecordId(pub String);

impl SuggestRecordId {
    pub fn new(id: String) -> (r: SuggestRecordId)
        ensures
            r.0@ == id@,
    {
        SuggestRecordId(id)
    }

    pub fn as_str(&self) -> (s: &str)
        ensures
            s@ == self.0@,
    {
        self.0.as_str()
    }
}

/// The fields that every downloaded suggestion has.
pub struct DownloadedSuggestionCommonDetails {
    pub keywords: Vec<String>,
    pub title: String,
    pub url: String,
    pub icon_id: String,
}

/// A sponsored suggestion as downloaded.
pub struct DownloadedAmpSuggestion {
    pub common_details: DownloadedSuggestionCommonDetails,
    pub advertiser: String,
    pub block_id: i64,
    pub iab_category: String,
    pub impression_url: String,
    pub click_url: String,
}

/// A Wikipedia suggestion as downloaded.
pub struct DownloadedWikipediaSuggestion {
    pub common_details: DownloadedSuggestionCommonDetails,
}

/// A suggestion as it comes from a Remote Settings record.
pub enum DownloadedSuggestion {
    Amp(DownloadedAmpSuggestion),
    Wikipedia(DownloadedWikipediaSuggestion),
}

impl DownloadedSuggestion {
    pub open spec fn details(&self) -> DownloadedSuggestionCommonDetails {
        match self {
            DownloadedSuggestion::Amp(a) => a.common_details,
            DownloadedSuggestion::Wikipedia(w) => w.common_details,
        }
    }

    pub open spec fn spec_provider(&self) -> SuggestionProvider {
        match self {
            DownloadedSuggestion::Amp(_) => SuggestionProvider::Amp,
            DownloadedSuggestion::Wikipedia(_) => SuggestionProvider::Wikipedia,
        }
    }

    /// The fields that the suggestion has whatever its provider.
    pub fn common_details(&self) -> (d: &DownloadedSuggestionCommonDetails)
        ensures
            *d == self.details(),
    {
        match self {
            DownloadedSuggestion::Amp(a) => &a.common_details,
            DownloadedSuggestion::Wikipedia(w) => &w.common_details,
        }
    }

    /// The provider that the suggestion belongs to.
    pub fn provider(&self) -> (p: SuggestionProvider)
        ensures
            p == self.spec_provider(),
    {
        match self {
            DownloadedSuggestion::Amp(_) => SuggestionProvider::Amp,
            DownloadedSuggestion::Wikipedia(_) => SuggestionProvider::Wikipedia,
        }
    }
}

/// A suggestion that is shown for a keyword.
#[derive(Debug)]
pub struct Suggestion {
    pub block_id: i64,
    pub advertiser: String,
    pub iab_category: String,
    pub is_sponsored: bool,
    pub full_keyword: String,
    pub title: String,
    pub url: String,
    pub icon: Option<Vec<u8>>,
    pub impression_url: Option<String>,
    pub click_url: Option<String>,
    pub provider: SuggestionProvider,
}

} // verus!
