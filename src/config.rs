//! Bounds and thresholds that generation and decoding run under.
use vstd::prelude::*;
use crate::pronounceability::SCORE_MAX;
use vstd::string::StringExecFns;

verus! {

/// Generation settings. `min_pronounceability_score` is in basis points
/// (10000 is a score of 1.0).
#[derive(Clone, Copy, Debug, PartialEq, Eq, Structural)]
pub struct Config {
    pub year_start: i32,
    pub year_end: i32,
    pub number_min: u32,
    pub number_max: u32,
    pub max_consonant_cluster: usize,
    pub min_pronounceability_score: u32,
    pub max_genus_length: usize,
}

/// The message of the first setting that breaks its rule, if any.
pub open spec fn config_error(c: Config) -> Option<Seq<char>> {
    if c.year_start >= c.year_end {
        Some("year_start must be less than year_end"@)
    } else if c.number_min >= c.number_max {
        Some("number_min must be less than number_max"@)
    } else if c.max_consonant_cluster < 2 {
        Some("max_consonant_cluster must be at least 2"@)
    } else if c.min_pronounceability_score > SCORE_MAX {
        Some("min_pronounceability_score must be at most 10000"@)
    } else {
        None
    }
}

impl Config {
    /// The settings obey their rules: ordered ranges, clusters of at least two,
    /// a score threshold within [0, 1].
    pub open spec fn valid(&self) -> bool {
        &&& self.year_start < self.year_end
        &&& self.number_min < self.number_max
        &&& self.max_consonant_cluster >= 2
        &&& self.min_pronounceability_score <= SCORE_MAX
    }

    /// Years 2000 to 2099, numbers 1 to 99, clusters of 3, score at least 0.3,
    /// genus of at most 18 bytes.
    pub fn default() -> (r: Self)
        ensures
            r == (Config {
                year_start: 2000,
                year_end: 2099,
                number_min: 1,
                number_max: 99,
                max_consonant_cluster: 3,
                min_pronounceability_score: 3000,
                max_genus_length: 18,
            }),
            r.valid(),
    {
        Config {
            year_start: 2000,
            year_end: 2099,
            number_min: 1,
            number_max: 99,
            max_consonant_cluster: 3,
            min_pronounceability_score: 3000,
            max_genus_length: 18,
        }
    }

    /// Checks the rules in order and reports the first one broken.
    pub fn validate(&self) -> (r: Result<(), String>)
        ensures
            r is Ok <==> self.valid(),
            r is Ok <==> config_error(*self) is None,
            r matches Err(e) ==> config_error(*self) == Some(e@),
    {
        if self.year_start >= self.year_end {
            return Err(String::from_str("year_start must be less than year_end"));
        }
        if self.number_min >= self.number_max {
            return Err(String::from_str("number_min must be less than number_max"));
        }
        if self.max_consonant_cluster < 2 {
            return Err(String::from_str("max_consonant_cluster must be at least 2"));
        }
        if self.min_pronounceability_score > SCORE_MAX {
            return Err(String::from_str("min_pronounceability_score must be at most 10000"));
        }
        Ok(())
    }
}

} // verus!
