//! Decode-error statistics.
//!
//! One counter set per error-correcting code used by the air interface.
//! Counters saturate rather than wrap: the counts are diagnostics, and a
//! pegged counter is better than a misleading small one.

use vstd::prelude::*;

verus! {

/// Error-correcting codes whose decodes are tallied.
#[derive(Copy, Clone, PartialEq, Eq, Structural, Debug)]
pub enum ErrorKind {
    /// BCH code protecting the NID word.
    Bch,
    /// Cyclic code protecting status symbols.
    Cyclic,
    /// Standard Golay code.
    GolayStd,
    /// Extended Golay code.
    GolayExt,
    /// Shortened Golay code.
    GolayShort,
    /// Standard Hamming code.
    HammingStd,
    /// Shortened Hamming code.
    HammingShort,
    /// Short Reed-Solomon code.
    RsShort,
    /// Medium Reed-Solomon code.
    RsMed,
    /// Long Reed-Solomon code.
    RsLong,
    /// Dibit-rate Viterbi decode.
    ViterbiDibit,
    /// Tribit-rate Viterbi decode.
    ViterbiTribit,
}

/// Counters for one error-correcting code.
#[derive(Copy, Clone, PartialEq, Eq, Structural, Debug)]
pub struct CodeStats {
    /// Code words processed.
    pub words: u64,
    /// Words with an unrecoverable error.
    pub errs: u64,
    /// Symbols per word.
    pub size: u64,
    /// Symbols corrected.
    pub fixed: u64,
}

/// A saturating sum of two counters.
pub open spec fn sat_add64(a: int, b: int) -> u64 {
    if a + b > u64::MAX {
        u64::MAX
    } else {
        (a + b) as u64
    }
}

impl CodeStats {
    /// Zeroed counters for a code with the given word size.
    pub fn new(size: u64) -> (r: CodeStats)
        ensures
            r == (CodeStats { words: 0u64, errs: 0u64, size, fixed: 0u64 }),
    {
        CodeStats { words: 0, errs: 0, size, fixed: 0 }
    }

    /// Fold another tally of the same code into this one.
    pub fn merge(&mut self, other: &CodeStats)
        ensures
            *final(self) == spec_code_merge(*old(self), *other),
    {
        self.words = self.words.saturating_add(other.words);
        self.errs = self.errs.saturating_add(other.errs);
        self.fixed = self.fixed.saturating_add(other.fixed);
    }

    /// Count one more unrecoverable word.
    pub fn record_err(&mut self)
        ensures
            final(self).errs == sat_add64(old(self).errs as int, 1),
            final(self).words == old(self).words,
            final(self).size == old(self).size,
            final(self).fixed == old(self).fixed,
    {
        self.errs = self.errs.saturating_add(1);
    }
}

/// Accumulated statistics over every code.
#[derive(Copy, Clone, PartialEq, Eq, Structural, Debug)]
pub struct Stats {
    /// NID word code.
    pub bch: CodeStats,
    /// Status symbol code.
    pub cyclic: CodeStats,
    /// Standard Golay code.
    pub golay_std: CodeStats,
    /// Extended Golay code.
    pub golay_ext: CodeStats,
    /// Shortened Golay code.
    pub golay_short: CodeStats,
    /// Standard Hamming code.
    pub hamming_std: CodeStats,
    /// Shortened Hamming code.
    pub hamming_short: CodeStats,
    /// Short Reed-Solomon code.
    pub rs_short: CodeStats,
    /// Medium Reed-Solomon code.
    pub rs_med: CodeStats,
    /// Long Reed-Solomon code.
    pub rs_long: CodeStats,
    /// Dibit-rate Viterbi decode.
    pub viterbi_dibit: CodeStats,
    /// Tribit-rate Viterbi decode.
    pub viterbi_tribit: CodeStats,
}

/// The zeroed tally that `Stats::new` hands out.
pub open spec fn spec_stats_new() -> Stats {
    Stats {
        bch: CodeStats { words: 0u64, errs: 0u64, size: 63u64, fixed: 0u64 },
        cyclic: CodeStats { words: 0u64, errs: 0u64, size: 16u64, fixed: 0u64 },
        golay_std: CodeStats { words: 0u64, errs: 0u64, size: 23u64, fixed: 0u64 },
        golay_ext: CodeStats { words: 0u64, errs: 0u64, size: 24u64, fixed: 0u64 },
        golay_short: CodeStats { words: 0u64, errs: 0u64, size: 18u64, fixed: 0u64 },
        hamming_std: CodeStats { words: 0u64, errs: 0u64, size: 15u64, fixed: 0u64 },
        hamming_short: CodeStats { words: 0u64, errs: 0u64, size: 10u64, fixed: 0u64 },
        rs_short: CodeStats { words: 0u64, errs: 0u64, size: 24u64, fixed: 0u64 },
        rs_med: CodeStats { words: 0u64, errs: 0u64, size: 24u64, fixed: 0u64 },
        rs_long: CodeStats { words: 0u64, errs: 0u64, size: 36u64, fixed: 0u64 },
        viterbi_dibit: CodeStats { words: 0u64, errs: 0u64, size: 49u64, fixed: 0u64 },
        viterbi_tribit: CodeStats { words: 0u64, errs: 0u64, size: 49u64, fixed: 0u64 },
    }
}

/// One code's counters folded into another's: words, unrecoverable
/// words, and corrected symbols add saturating; the symbols-per-word size
/// is a constant of the code and stays.
pub open spec fn spec_code_merge(a: CodeStats, b: CodeStats) -> CodeStats {
    CodeStats {
        words: sat_add64(a.words as int, b.words as int),
        errs: sat_add64(a.errs as int, b.errs as int),
        size: a.size,
        fixed: sat_add64(a.fixed as int, b.fixed as int),
    }
}

/// A whole tally folded into another, code by code.
pub open spec fn spec_stats_merge(a: Stats, b: Stats) -> Stats {
    Stats {
        bch: spec_code_merge(a.bch, b.bch),
        cyclic: spec_code_merge(a.cyclic, b.cyclic),
        golay_std: spec_code_merge(a.golay_std, b.golay_std),
        golay_ext: spec_code_merge(a.golay_ext, b.golay_ext),
        golay_short: spec_code_merge(a.golay_short, b.golay_short),
        hamming_std: spec_code_merge(a.hamming_std, b.hamming_std),
        hamming_short: spec_code_merge(a.hamming_short, b.hamming_short),
        rs_short: spec_code_merge(a.rs_short, b.rs_short),
        rs_med: spec_code_merge(a.rs_med, b.rs_med),
        rs_long: spec_code_merge(a.rs_long, b.rs_long),
        viterbi_dibit: spec_code_merge(a.viterbi_dibit, b.viterbi_dibit),
        viterbi_tribit: spec_code_merge(a.viterbi_tribit, b.viterbi_tribit),
    }
}

/// The tally after one more unrecoverable word of the given kind.
pub open spec fn spec_record_err(s: Stats, kind: ErrorKind) -> Stats {
    let b = s.spec_bucket(kind);
    let b2 = CodeStats { errs: sat_add64(b.errs as int, 1), ..b };
    match kind {
        ErrorKind::Bch => Stats { bch: b2, ..s },
        ErrorKind::Cyclic => Stats { cyclic: b2, ..s },
        ErrorKind::GolayStd => Stats { golay_std: b2, ..s },
        ErrorKind::GolayExt => Stats { golay_ext: b2, ..s },
        ErrorKind::GolayShort => Stats { golay_short: b2, ..s },
        ErrorKind::HammingStd => Stats { hamming_std: b2, ..s },
        ErrorKind::HammingShort => Stats { hamming_short: b2, ..s },
        ErrorKind::RsShort => Stats { rs_short: b2, ..s },
        ErrorKind::RsMed => Stats { rs_med: b2, ..s },
        ErrorKind::RsLong => Stats { rs_long: b2, ..s },
        ErrorKind::ViterbiDibit => Stats { viterbi_dibit: b2, ..s },
        ErrorKind::ViterbiTribit => Stats { viterbi_tribit: b2, ..s },
    }
}

impl Stats {
    /// All counters zeroed, with each code's symbol-per-word size.
    pub fn new() -> (r: Stats)
        ensures
            r == spec_stats_new(),
            r.bch.errs == 0 && r.cyclic.errs == 0 && r.golay_std.errs == 0 && r.golay_ext.errs
                == 0 && r.golay_short.errs == 0 && r.hamming_std.errs == 0 && r.hamming_short.errs
                == 0 && r.rs_short.errs == 0 && r.rs_med.errs == 0 && r.rs_long.errs == 0
                && r.viterbi_dibit.errs == 0 && r.viterbi_tribit.errs == 0,
    {
        Stats {
            bch: CodeStats::new(63),
            cyclic: CodeStats::new(16),
            golay_std: CodeStats::new(23),
            golay_ext: CodeStats::new(24),
            golay_short: CodeStats::new(18),
            hamming_std: CodeStats::new(15),
            hamming_short: CodeStats::new(10),
            rs_short: CodeStats::new(24),
            rs_med: CodeStats::new(24),
            rs_long: CodeStats::new(36),
            viterbi_dibit: CodeStats::new(49),
            viterbi_tribit: CodeStats::new(49),
        }
    }

    /// The counter set for one error kind.
    pub open spec fn spec_bucket(self, kind: ErrorKind) -> CodeStats {
        match kind {
            ErrorKind::Bch => self.bch,
            ErrorKind::Cyclic => self.cyclic,
            ErrorKind::GolayStd => self.golay_std,
            ErrorKind::GolayExt => self.golay_ext,
            ErrorKind::GolayShort => self.golay_short,
            ErrorKind::HammingStd => self.hamming_std,
            ErrorKind::HammingShort => self.hamming_short,
            ErrorKind::RsShort => self.rs_short,
            ErrorKind::RsMed => self.rs_med,
            ErrorKind::RsLong => self.rs_long,
            ErrorKind::ViterbiDibit => self.viterbi_dibit,
            ErrorKind::ViterbiTribit => self.viterbi_tribit,
        }
    }

    /// Count one unrecoverable word against the matching code.
    pub fn record_err(&mut self, kind: ErrorKind)
        ensures
            *final(self) == spec_record_err(*old(self), kind),
            final(self).spec_bucket(kind).errs == sat_add64(
                old(self).spec_bucket(kind).errs as int,
                1,
            ),
            forall|k2: ErrorKind|
                k2 != kind ==> #[trigger] final(self).spec_bucket(k2) == old(self).spec_bucket(k2),
    {
        match kind {
            ErrorKind::Bch => self.bch.record_err(),
            ErrorKind::Cyclic => self.cyclic.record_err(),
            ErrorKind::GolayStd => self.golay_std.record_err(),
            ErrorKind::GolayExt => self.golay_ext.record_err(),
            ErrorKind::GolayShort => self.golay_short.record_err(),
            ErrorKind::HammingStd => self.hamming_std.record_err(),
            ErrorKind::HammingShort => self.hamming_short.record_err(),
            ErrorKind::RsShort => self.rs_short.record_err(),
            ErrorKind::RsMed => self.rs_med.record_err(),
            ErrorKind::RsLong => self.rs_long.record_err(),
            ErrorKind::ViterbiDibit => self.viterbi_dibit.record_err(),
            ErrorKind::ViterbiTribit => self.viterbi_tribit.record_err(),
        }
    }

    /// Fold another tally into this one, code by code.
    pub fn merge(&mut self, other: &Stats)
        ensures
            *final(self) == spec_stats_merge(*old(self), *other),
    {
        self.bch.merge(&other.bch);
        self.cyclic.merge(&other.cyclic);
        self.golay_std.merge(&other.golay_std);
        self.golay_ext.merge(&other.golay_ext);
        self.golay_short.merge(&other.golay_short);
        self.hamming_std.merge(&other.hamming_std);
        self.hamming_short.merge(&other.hamming_short);
        self.rs_short.merge(&other.rs_short);
        self.rs_med.merge(&other.rs_med);
        self.rs_long.merge(&other.rs_long);
        self.viterbi_dibit.merge(&other.viterbi_dibit);
        self.viterbi_tribit.merge(&other.viterbi_tribit);
    }
}

} // verus!
