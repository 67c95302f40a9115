//! The configuration, built from a snapshot of the environment.

use crate::text::{digits_value, is_digits};
use vstd::prelude::*;
use vstd::string::*;

verus! {

/// Why no configuration could be built.
#[derive(Clone, Debug, PartialEq, Eq)]
pub enum EnvError {
    /// The named variable is not set.
    Missing(String),
    /// The named variable is set, but its value is no number; with the
    /// parser's words.
    Parse(String, String),
}

/// The connection parameters of one run.
#[derive(Clone, Debug, PartialEq, Eq)]
pub struct Config {
    pub openai_api_key: String,
    pub pinecone_api_key: String,
    pub pinecone_index_name: String,
    pub pinecone_index_dimension: u32,
    pub pinecone_index_metric: String,
    pub pinecone_index_cloud: String,
    pub pinecone_index_region: String,
}

/// An `EnvError` as a mathematical value.
pub enum EnvErrorView {
    Missing(Seq<char>),
    Parse(Seq<char>, Seq<char>),
}

/// A `Config` as a mathematical value.
pub struct ConfigView {
    pub openai_api_key: Seq<char>,
    pub pinecone_api_key: Seq<char>,
    pub pinecone_index_name: Seq<char>,
    pub pinecone_index_dimension: u32,
    pub pinecone_index_metric: Seq<char>,
    pub pinecone_index_cloud: Seq<char>,
    pub pinecone_index_region: Seq<char>,
}

impl View for EnvError {
    type V = EnvErrorView;

    open spec fn view(&self) -> EnvErrorView {
        match self {
            EnvError::Missing(name) => EnvErrorView::Missing(name@),
            EnvError::Parse(name, detail) => EnvErrorView::Parse(name@, detail@),
        }
    }
}

impl View for Config {
    type V = ConfigView;

    open spec fn view(&self) -> ConfigView {
        ConfigView {
            openai_api_key: self.openai_api_key@,
            pinecone_api_key: self.pinecone_api_key@,
            pinecone_index_name: self.pinecone_index_name@,
            pinecone_index_dimension: self.pinecone_index_dimension,
            pinecone_index_metric: self.pinecone_index_metric@,
            pinecone_index_cloud: self.pinecone_index_cloud@,
            pinecone_index_region: self.pinecone_index_region@,
        }
    }
}

/// The value of the first variable called `name`, if there is one.
pub open spec fn lookup(vars: Seq<(String, String)>, name: Seq<char>) -> Option<Seq<char>>
    decreases vars.len(),
{
    if vars.len() == 0 {
        None
    } else if vars[0].0@ == name {
        Some(vars[0].1@)
    } else {
        lookup(vars.drop_first(), name)
    }
}

/// The number that `s` denotes as an unsigned decimal literal: an optional
/// plus sign, then one or more of the digits `0` to `9`, and nothing else.
pub open spec fn unsigned_literal(s: Seq<char>) -> Option<nat> {
    if s.len() > 0 && s[0] == '+' {
        if is_digits(s.drop_first()) {
            Some(digits_value(s.drop_first()))
        } else {
            None
        }
    } else if is_digits(s) {
        Some(digits_value(s))
    } else {
        None
    }
}

/// The number that `s` denotes as a `u32`, if it denotes one.
pub open spec fn u32_literal(s: Seq<char>) -> Option<u32> {
    match unsigned_literal(s) {
        Some(n) => if n <= u32::MAX {
            Some(n as u32)
        } else {
            None
        },
        None => None,
    }
}

/// The words in which the standard library refuses to read `s` as a `u32`.
pub uninterp spec fn u32_parse_failure(s: Seq<char>) -> Seq<char>;

/// Calls `str::parse::<u32>`, and on a failure `to_string` on its error. The
/// parser reads an optional plus sign followed by decimal digits and nothing
/// else, and fails where the number does not fit; the contract says so. Of a
/// failure the contract only names the error's words.
#[verifier::external_body]
fn parse_u32(s: &str) -> (r: Result<u32, String>)
    ensures
        match r {
            Ok(n) => u32_literal(s@) == Some(n),
            Err(detail) => u32_literal(s@) is None && detail@ == u32_parse_failure(s@),
        },
{
    s.parse::<u32>().map_err(|e| e.to_string())
}

/// What `Config::from_env` makes of the variables `vars`. The variables are
/// asked for in a fixed order, and the first one that fails decides.
pub open spec fn config_of(vars: Seq<(String, String)>) -> Result<ConfigView, EnvErrorView> {
    let openai_api_key = lookup(vars, "OPENAI_API_KEY"@);
    let pinecone_api_key = lookup(vars, "PINECONE_API_KEY"@);
    let index_name = lookup(vars, "PINECONE_INDEX_NAME"@);
    let dimension = lookup(vars, "PINECONE_INDEX_DIMENSION"@);
    let metric = lookup(vars, "PINECONE_INDEX_METRIC"@);
    let cloud = lookup(vars, "PINECONE_INDEX_CLOUD"@);
    let region = lookup(vars, "PINECONE_INDEX_REGION"@);
    if openai_api_key is None {
        Err(EnvErrorView::Missing("OPENAI_API_KEY"@))
    } else if pinecone_api_key is None {
        Err(EnvErrorView::Missing("PINECONE_API_KEY"@))
    } else if index_name is None {
        Err(EnvErrorView::Missing("PINECONE_INDEX_NAME"@))
    } else if dimension is None {
        Err(EnvErrorView::Missing("PINECONE_INDEX_DIMENSION"@))
    } else if u32_literal(dimension->0) is None {
        Err(
            EnvErrorView::Parse(
                "PINECONE_INDEX_DIMENSION"@,
                u32_parse_failure(dimension->0),
            ),
        )
    } else if cloud is None {
        Err(EnvErrorView::Missing("PINECONE_INDEX_CLOUD"@))
    } else if region is None {
        Err(EnvErrorView::Missing("PINECONE_INDEX_REGION"@))
    } else {
        Ok(
            ConfigView {
                openai_api_key: openai_api_key->0,
                pinecone_api_key: pinecone_api_key->0,
                pinecone_index_name: index_name->0,
                pinecone_index_dimension: u32_literal(dimension->0)->0,
                pinecone_index_metric: match metric {
                    Some(m) => m,
                    None => "cosine"@,
                },
                pinecone_index_cloud: cloud->0,
                pinecone_index_region: region->0,
            },
        )
    }
}

/// Looks `name` up among `vars`.
fn find(vars: &Vec<(String, String)>, name: &str) -> (r: Option<String>)
    ensures
        match r {
            Some(value) => lookup(vars@, name@) == Some(value@),
            None => lookup(vars@, name@) is None,
        },
{
    let key = name.to_owned();
    let mut i: usize = 0;
    assert(vars@.skip(0) =~= vars@);
    while i < vars.len()
        invariant
            i <= vars.len(),
            key@ == name@,
            lookup(vars@, name@) == lookup(vars@.skip(i as int), name@),
        decreases vars.len() - i,
    {
        let ghost rest = vars@.skip(i as int);
        assert(rest[0] == vars@[i as int]);
        assert(rest.drop_first() =~= vars@.skip(i + 1));
        if vars[i].0 == key {
            return Some(vars[i].1.clone());
        }
        i = i + 1;
    }
    None
}

/// Looks up a variable that must be set.
fn require(vars: &Vec<(String, String)>, name: &str) -> (r: Result<String, EnvError>)
    ensures
        match r {
            Ok(value) => lookup(vars@, name@) == Some(value@),
            Err(e) => lookup(vars@, name@) is None && e@ == EnvErrorView::Missing(name@),
        },
{
    match find(vars, name) {
        Some(value) => Ok(value),
        None => Err(EnvError::Missing(name.to_owned())),
    }
}

impl EnvError {
    /// What the error says of itself.
    pub open spec fn message_text(self) -> Seq<char> {
        match self {
            EnvError::Missing(name) => "Environment variable "@ + name@ + " is not set"@,
            EnvError::Parse(name, detail) => "Failed to parse "@ + name@ + ": "@ + detail@,
        }
    }

    /// Describes the error in one line.
    pub fn message(&self) -> (r: String)
        ensures
            r@ == self.message_text(),
    {
        let mut out = String::new();
        match self {
            EnvError::Missing(name) => {
                out.append("Environment variable ");
                out.append(name.as_str());
                out.append(" is not set");
            },
            EnvError::Parse(name, detail) => {
                out.append("Failed to parse ");
                out.append(name.as_str());
                out.append(": ");
                out.append(detail.as_str());
            },
        }
        assert(out@ =~= self.message_text());
        out
    }
}

impl Config {
    /// Builds the configuration from the variables of the environment, given
    /// as pairs of name and value. Five variables and the dimension must be
    /// set, and the dimension must be a number; the metric is `cosine` where
    /// it is not set.
    pub fn from_env(vars: &Vec<(String, String)>) -> (r: Result<Config, EnvError>)
        ensures
            match r {
                Ok(config) => config_of(vars@) == Ok::<ConfigView, EnvErrorView>(config@),
                Err(e) => config_of(vars@) == Err::<ConfigView, EnvErrorView>(e@),
            },
    {
        let openai_api_key = match require(vars, "OPENAI_API_KEY") {
            Ok(value) => value,
            Err(e) => {
                return Err(e);
            },
        };
        let pinecone_api_key = match require(vars, "PINECONE_API_KEY") {
            Ok(value) => value,
            Err(e) => {
                return Err(e);
            },
        };
        let pinecone_index_name = match require(vars, "PINECONE_INDEX_NAME") {
            Ok(value) => value,
            Err(e) => {
                return Err(e);
            },
        };
        let dimension_text = match require(vars, "PINECONE_INDEX_DIMENSION") {
            Ok(value) => value,
            Err(e) => {
                return Err(e);
            },
        };
        let pinecone_index_dimension = match parse_u32(dimension_text.as_str()) {
            Ok(n) => n,
            Err(detail) => {
                return Err(EnvError::Parse("PINECONE_INDEX_DIMENSION".to_owned(), detail));
            },
        };
        let pinecone_index_metric = match find(vars, "PINECONE_INDEX_METRIC") {
            Some(value) => value,
            None => "cosine".to_owned(),
        };
        let pinecone_index_cloud = match require(vars, "PINECONE_INDEX_CLOUD") {
            Ok(value) => value,
            Err(e) => {
                return Err(e);
            },
        };
        let pinecone_index_region = match require(vars, "PINECONE_INDEX_REGION") {
            Ok(value) => value,
            Err(e) => {
                return Err(e);
            },
        };
        Ok(
            Config {
                openai_api_key,
                pinecone_api_key,
                pinecone_index_name,
                pinecone_index_dimension,
                pinecone_index_metric,
                pinecone_index_cloud,
                pinecone_index_region,
            },
        )
    }
}

} // verus!
