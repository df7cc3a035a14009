//! The z-test: a configuration made of a test kind and a significance
//! level, the critical value the table gives for them, and the decision on a
//! z statistic.

use crate::arithmetic::{
    count, counted, difference, is_unit, minus, over, quotient, root, square_root, Operation,
};
use crate::arrays::SampleVector;
use crate::ieee::{at_most, less_or_equal, negate, negation};
use crate::utilities::{
    get_mean, get_variance, mean_of, variance_fault, variance_of, vector_fault, StatsError,
};
use std::collections::HashMap;
use vstd::prelude::*;

verus! {

broadcast use vstd::std_specs::hash::group_hash_axioms;

/// The significance level 0.20.
pub const LEVEL_0_20: u64 = 0x3fc9_9999_9999_999a;

/// The significance level 0.10.
pub const LEVEL_0_10: u64 = 0x3fb9_9999_9999_999a;

/// The significance level 0.05.
pub const LEVEL_0_05: u64 = 0x3fa9_9999_9999_999a;

/// The significance level 0.025.
pub const LEVEL_0_025: u64 = 0x3f99_9999_9999_999a;

/// The significance level 0.010.
pub const LEVEL_0_010: u64 = 0x3f84_7ae1_47ae_147b;

/// The significance level 0.005.
pub const LEVEL_0_005: u64 = 0x3f74_7ae1_47ae_147b;

/// The significance level 0.001.
pub const LEVEL_0_001: u64 = 0x3f50_624d_d2f1_a9fc;

/// The significance level 0.0001.
pub const LEVEL_0_0001: u64 = 0x3f1a_36e2_eb1c_432d;

/// The critical value 1.282.
pub const CRITICAL_1_282: u64 = 0x3ff4_8312_6e97_8d50;

/// The critical value 1.645.
pub const CRITICAL_1_645: u64 = 0x3ffa_51eb_851e_b852;

/// The critical value 1.960.
pub const CRITICAL_1_960: u64 = 0x3fff_5c28_f5c2_8f5c;

/// The critical value 2.326.
pub const CRITICAL_2_326: u64 = 0x4002_9ba5_e353_f7cf;

/// The critical value 2.576.
pub const CRITICAL_2_576: u64 = 0x4004_9ba5_e353_f7cf;

/// The critical value 3.090.
pub const CRITICAL_3_090: u64 = 0x4008_b851_eb85_1eb8;

/// The critical value 3.291.
pub const CRITICAL_3_291: u64 = 0x400a_53f7_ced9_1687;

/// The critical value 3.719.
pub const CRITICAL_3_719: u64 = 0x400d_c083_126e_978d;

/// The critical value 3.819.
pub const CRITICAL_3_819: u64 = 0x400e_8d4f_df3b_645a;

/// Which tail, or tails, of the distribution reject the null hypothesis.
#[derive(Debug, Clone, Copy, PartialEq, Eq, Structural)]
pub enum ZTestKind {
    OneTailedUpper,
    OneTailedLower,
    TwoTailed,
}

/// What a test concludes about the null hypothesis.
#[derive(Debug, Clone, Copy, PartialEq, Eq, Structural)]
pub enum Decision {
    FailToReject,
    Reject,
}

/// The table of the upper one-tailed test: significance level to critical
/// value.
pub open spec fn upper_table() -> Map<u64, u64> {
    map![
        LEVEL_0_10 => CRITICAL_1_282,
        LEVEL_0_05 => CRITICAL_1_645,
        LEVEL_0_025 => CRITICAL_1_960,
        LEVEL_0_010 => CRITICAL_2_326,
        LEVEL_0_005 => CRITICAL_2_576,
        LEVEL_0_001 => CRITICAL_3_090,
        LEVEL_0_0001 => CRITICAL_3_719,
    ]
}

/// The table of the lower one-tailed test: the levels of the upper one, each
/// with the negated critical value.
pub open spec fn lower_table() -> Map<u64, u64> {
    map![
        LEVEL_0_10 => negation(CRITICAL_1_282),
        LEVEL_0_05 => negation(CRITICAL_1_645),
        LEVEL_0_025 => negation(CRITICAL_1_960),
        LEVEL_0_010 => negation(CRITICAL_2_326),
        LEVEL_0_005 => negation(CRITICAL_2_576),
        LEVEL_0_001 => negation(CRITICAL_3_090),
        LEVEL_0_0001 => negation(CRITICAL_3_719),
    ]
}

/// The table of the two-tailed test.
pub open spec fn two_tailed_table() -> Map<u64, u64> {
    map![
        LEVEL_0_20 => CRITICAL_1_282,
        LEVEL_0_10 => CRITICAL_1_645,
        LEVEL_0_05 => CRITICAL_1_960,
        LEVEL_0_010 => CRITICAL_2_576,
        LEVEL_0_001 => CRITICAL_3_291,
        LEVEL_0_0001 => CRITICAL_3_819,
    ]
}

/// The critical values of a test kind, keyed by significance level.
pub open spec fn z_table(kind: ZTestKind) -> Map<u64, u64> {
    match kind {
        ZTestKind::OneTailedUpper => upper_table(),
        ZTestKind::OneTailedLower => lower_table(),
        ZTestKind::TwoTailed => two_tailed_table(),
    }
}

/// Whether a z statistic leaves the null hypothesis standing: it does not
/// pass the critical value on the upper tail, nor fall below it on the lower
/// tail, nor leave the band between the critical value and its negation.
pub open spec fn fails_to_reject(kind: ZTestKind, z_critical: u64, z_value: u64) -> bool {
    match kind {
        ZTestKind::OneTailedUpper => at_most(z_value, z_critical),
        ZTestKind::OneTailedLower => at_most(z_critical, z_value),
        ZTestKind::TwoTailed => at_most(negation(z_critical), z_value) && at_most(
            z_value,
            z_critical,
        ),
    }
}

/// The decision on a z statistic.
pub open spec fn decision_of(kind: ZTestKind, z_critical: u64, z_value: u64) -> Decision {
    if fails_to_reject(kind, z_critical, z_value) {
        Decision::FailToReject
    } else {
        Decision::Reject
    }
}

/// Builds the critical-value table of a test kind.
pub fn get_z_table(z_test_kind: ZTestKind) -> (table: HashMap<u64, u64>)
    ensures
        table@ == z_table(z_test_kind),
{
    let mut table = HashMap::<u64, u64>::new();
    match z_test_kind {
        ZTestKind::OneTailedUpper => {
            table.insert(LEVEL_0_10, CRITICAL_1_282);
            table.insert(LEVEL_0_05, CRITICAL_1_645);
            table.insert(LEVEL_0_025, CRITICAL_1_960);
            table.insert(LEVEL_0_010, CRITICAL_2_326);
            table.insert(LEVEL_0_005, CRITICAL_2_576);
            table.insert(LEVEL_0_001, CRITICAL_3_090);
            table.insert(LEVEL_0_0001, CRITICAL_3_719);
        },
        ZTestKind::OneTailedLower => {
            table.insert(LEVEL_0_10, negate(CRITICAL_1_282));
            table.insert(LEVEL_0_05, negate(CRITICAL_1_645));
            table.insert(LEVEL_0_025, negate(CRITICAL_1_960));
            table.insert(LEVEL_0_010, negate(CRITICAL_2_326));
            table.insert(LEVEL_0_005, negate(CRITICAL_2_576));
            table.insert(LEVEL_0_001, negate(CRITICAL_3_090));
            table.insert(LEVEL_0_0001, negate(CRITICAL_3_719));
        },
        ZTestKind::TwoTailed => {
            table.insert(LEVEL_0_20, CRITICAL_1_282);
            table.insert(LEVEL_0_10, CRITICAL_1_645);
            table.insert(LEVEL_0_05, CRITICAL_1_960);
            table.insert(LEVEL_0_010, CRITICAL_2_576);
            table.insert(LEVEL_0_001, CRITICAL_3_291);
            table.insert(LEVEL_0_0001, CRITICAL_3_819);
        },
    }
    table
}

/// The z statistic of a sample: the distance of its mean from the
/// hypothesized mean, in standard errors of the mean.
pub open spec fn z_statistic_of<F: Fn(Operation) -> u64>(
    unit: F,
    hypothesized_mean: u64,
    population_std: u64,
    sample: Seq<u64>,
) -> u64 {
    quotient(
        unit,
        difference(unit, mean_of(unit, sample), hypothesized_mean),
        quotient(unit, population_std, square_root(unit, counted(unit, sample.len()))),
    )
}

/// What `calculate_z_score` returns.
pub open spec fn z_statistic_outcome<F: Fn(Operation) -> u64>(
    unit: F,
    hypothesized_mean: u64,
    population_std: u64,
    sample: Seq<u64>,
) -> Result<u64, StatsError> {
    match vector_fault(sample) {
        Some(fault) => Err(fault),
        None => Ok(z_statistic_of(unit, hypothesized_mean, population_std, sample)),
    }
}

/// What `get_f_statistic` returns: the quotient of the two sample
/// variances, with the variance of the longer sample on top, and that of the
/// first sample where they are as long.
pub open spec fn f_statistic_outcome<F: Fn(Operation) -> u64>(
    unit: F,
    sample_1: Seq<u64>,
    sample_2: Seq<u64>,
) -> Result<u64, StatsError> {
    match variance_fault(sample_1) {
        Some(fault) => Err(fault),
        None => match variance_fault(sample_2) {
            Some(fault) => Err(fault),
            None => if sample_1.len() >= sample_2.len() {
                Ok(quotient(unit, variance_of(unit, sample_1), variance_of(unit, sample_2)))
            } else {
                Ok(quotient(unit, variance_of(unit, sample_2), variance_of(unit, sample_1)))
            },
        },
    }
}

/// The F statistic of two samples.
pub fn get_f_statistic<F: Fn(Operation) -> u64>(
    sample_1: &SampleVector,
    sample_2: &SampleVector,
    unit: &F,
) -> (statistic: Result<u64, StatsError>)
    requires
        is_unit(*unit),
    ensures
        statistic == f_statistic_outcome(*unit, sample_1@, sample_2@),
{
    let variance_1 = match get_variance(sample_1, unit) {
        Ok(variance) => variance,
        Err(fault) => {
            return Err(fault);
        },
    };
    let variance_2 = match get_variance(sample_2, unit) {
        Ok(variance) => variance,
        Err(fault) => {
            return Err(fault);
        },
    };
    if sample_1.len() >= sample_2.len() {
        Ok(over(unit, variance_1, variance_2))
    } else {
        Ok(over(unit, variance_2, variance_1))
    }
}

/// The lower one-tailed table has the levels of the upper one, and for each
/// the negated critical value.
pub proof fn lemma_lower_table_mirrors_upper(alpha_level: u64)
    ensures
        z_table(ZTestKind::OneTailedLower).contains_key(alpha_level) <==> z_table(
            ZTestKind::OneTailedUpper,
        ).contains_key(alpha_level),
        z_table(ZTestKind::OneTailedUpper).contains_key(alpha_level) ==> z_table(
            ZTestKind::OneTailedLower,
        )[alpha_level] == negation(z_table(ZTestKind::OneTailedUpper)[alpha_level]),
{
}

/// A two-tailed test decides on a statistic as it does on its negation.
pub proof fn lemma_two_tails_are_symmetric(z_critical: u64, z_value: u64)
    ensures
        decision_of(ZTestKind::TwoTailed, z_critical, z_value) == decision_of(
            ZTestKind::TwoTailed,
            z_critical,
            negation(z_value),
        ),
{
}

/// The upper and the lower one-tailed test mirror each other: the upper
/// test with a critical value decides on a statistic as the lower test with
/// the negated critical value decides on the negated statistic.
pub proof fn lemma_one_tailed_tests_mirror(z_critical: u64, z_value: u64)
    ensures
        decision_of(ZTestKind::OneTailedUpper, z_critical, z_value) == decision_of(
            ZTestKind::OneTailedLower,
            negation(z_critical),
            negation(z_value),
        ),
{
}

/// A z-test, configured once: its kind, its significance level and the
/// critical value that the table holds for the two.
pub struct ZTest {
    z_test_kind: ZTestKind,
    alpha_level: u64,
    z_critical: u64,
}

/// What a z-test found.
#[derive(Debug, Clone, Copy, PartialEq, Eq, Structural)]
pub struct ZTestResult {
    pub z_test_kind: ZTestKind,
    pub z_critical: u64,
    pub sample_mean: u64,
    pub hypothesized_mean: u64,
    pub z_value: u64,
    pub decision: Decision,
}

impl ZTest {
    /// The kind of the test.
    pub closed spec fn kind(&self) -> ZTestKind {
        self.z_test_kind
    }

    /// The significance level of the test.
    pub closed spec fn alpha(&self) -> u64 {
        self.alpha_level
    }

    /// The critical value of the test.
    pub closed spec fn critical(&self) -> u64 {
        self.z_critical
    }

    /// Every test holds the critical value of its kind and level.
    #[verifier::type_invariant]
    pub closed spec fn configured(&self) -> bool {
        z_table(self.z_test_kind).contains_pair(self.alpha_level, self.z_critical)
    }

    /// Configures a test. The significance level must be a key of the table
    /// of the kind.
    pub fn new(z_test_kind: ZTestKind, alpha_level: u64) -> (made: Result<ZTest, StatsError>)
        ensures
            made is Ok <==> z_table(z_test_kind).contains_key(alpha_level),
            made matches Ok(test) ==> test.kind() == z_test_kind && test.alpha() == alpha_level
                && test.critical() == z_table(z_test_kind)[alpha_level],
            made matches Err(fault) ==> fault == StatsError::UnsupportedSignificanceLevel,
    {
        let table = get_z_table(z_test_kind);
        match table.get(&alpha_level) {
            Some(z_critical) => Ok(ZTest { z_test_kind, alpha_level, z_critical: *z_critical }),
            None => Err(StatsError::UnsupportedSignificanceLevel),
        }
    }

    /// The kind of the test.
    pub fn z_test_kind(&self) -> (kind: ZTestKind)
        ensures
            kind == self.kind(),
    {
        self.z_test_kind
    }

    /// The significance level of the test.
    pub fn alpha_level(&self) -> (alpha: u64)
        ensures
            alpha == self.alpha(),
    {
        self.alpha_level
    }

    /// The critical value of the test, which is the one the table holds.
    pub fn z_critical(&self) -> (critical: u64)
        ensures
            critical == self.critical(),
            z_table(self.kind()).contains_pair(self.alpha(), critical),
    {
        proof {
            use_type_invariant(self);
        }
        self.z_critical
    }

    /// Decides on a z statistic.
    pub fn decide(&self, z_value: u64) -> (decision: Decision)
        ensures
            decision == decision_of(self.kind(), self.critical(), z_value),
    {
        let stands = match self.z_test_kind {
            ZTestKind::OneTailedUpper => less_or_equal(z_value, self.z_critical),
            ZTestKind::OneTailedLower => less_or_equal(self.z_critical, z_value),
            ZTestKind::TwoTailed => less_or_equal(negate(self.z_critical), z_value)
                && less_or_equal(z_value, self.z_critical),
        };
        if stands {
            Decision::FailToReject
        } else {
            Decision::Reject
        }
    }

    /// The z statistic of a sample under this test.
    pub fn calculate_z_score<F: Fn(Operation) -> u64>(
        &self,
        hypothesized_mean: u64,
        population_std: u64,
        sample: &SampleVector,
        unit: &F,
    ) -> (score: Result<u64, StatsError>)
        requires
            is_unit(*unit),
        ensures
            score == z_statistic_outcome(*unit, hypothesized_mean, population_std, sample@),
    {
        let mean = match get_mean(sample, unit) {
            Ok(mean) => mean,
            Err(fault) => {
                return Err(fault);
            },
        };
        let distance = minus(unit, mean, hypothesized_mean);
        let items = count(unit, sample.len());
        let standard_error = over(unit, population_std, root(unit, items));
        Ok(over(unit, distance, standard_error))
    }

    /// Tests a sample: computes its z statistic and decides on it.
    pub fn perform_test<F: Fn(Operation) -> u64>(
        &self,
        hypothesized_mean: u64,
        population_std: u64,
        sample: &SampleVector,
        unit: &F,
    ) -> (result: Result<ZTestResult, StatsError>)
        requires
            is_unit(*unit),
        ensures
            match vector_fault(sample@) {
                Some(fault) => result == Err::<ZTestResult, StatsError>(fault),
                None => result == Ok::<ZTestResult, StatsError>(
                    ZTestResult {
                        z_test_kind: self.kind(),
                        z_critical: self.critical(),
                        sample_mean: mean_of(*unit, sample@),
                        hypothesized_mean,
                        z_value: z_statistic_of(
                            *unit,
                            hypothesized_mean,
                            population_std,
                            sample@,
                        ),
                        decision: decision_of(
                            self.kind(),
                            self.critical(),
                            z_statistic_of(*unit, hypothesized_mean, population_std, sample@),
                        ),
                    },
                ),
            },
    {
        let z_value = match self.calculate_z_score(hypothesized_mean, population_std, sample, unit) {
            Ok(z_value) => z_value,
            Err(fault) => {
                return Err(fault);
            },
        };
        let sample_mean = match get_mean(sample, unit) {
            Ok(mean) => mean,
            Err(fault) => {
                return Err(fault);
            },
        };
        Ok(
            ZTestResult {
                z_test_kind: self.z_test_kind,
                z_critical: self.z_critical,
                sample_mean,
                hypothesized_mean,
                z_value,
                decision: self.decide(z_value),
            },
        )
    }
}

} // verus!
