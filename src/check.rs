use vstd::prelude::*;
use crate::paths::{PathParts, RsPath, MdPath, display_path};
use crate::text::string_of;
use crate::timestamp::{Timestamp, MtimeResult};

verus! {

/// A type that names a file by its path.
pub trait HasPath {
    spec fn path_view(&self) -> Seq<Seq<char>>;

    fn path_parts(&self) -> (r: PathParts)
        ensures
            r@ == self.path_view(),
    ;
}

impl HasPath for PathParts {
    open spec fn path_view(&self) -> Seq<Seq<char>> {
        self@
    }

    fn path_parts(&self) -> (r: PathParts) {
        self.copy()
    }
}

impl HasPath for RsPath {
    open spec fn path_view(&self) -> Seq<Seq<char>> {
        self@
    }

    fn path_parts(&self) -> (r: PathParts) {
        self.path().copy()
    }
}

impl HasPath for MdPath {
    open spec fn path_view(&self) -> Seq<Seq<char>> {
        self@
    }

    fn path_parts(&self) -> (r: PathParts) {
        self.path().copy()
    }
}

/// A planned generation of `generate` from `original`, with the modification
/// times of both as seen when it was planned.
pub struct Transform<X, Y> {
    pub source_time: Timestamp,
    pub target_time: MtimeResult,
    pub original: X,
    pub generate: Y,
}

pub type PathTransform = Transform<PathParts, PathParts>;

/// Why the planner refuses to go on.
pub enum ErrorKind {
    TargetYoungerThanOriginal { tgt: String, src: String },
    NoTangoStampExists { tgt: String, src: String },
    TangoStampOlderThanTarget { tgt: String },
}

/// A refusal of the planner, with the transform it was looking at.
pub struct Error(pub ErrorKind, pub PathTransform);

impl<X: HasPath, Y: HasPath> Transform<X, Y> {
    pub fn new(original: X, generate: Y, source_time: Timestamp, target_time: MtimeResult) -> (r: Self)
        ensures
            r.original == original,
            r.generate == generate,
            r.source_time == source_time,
            r.target_time == target_time,
    {
        Transform { source_time, target_time, original, generate }
    }

    /// The error of the given kind about this transform.
    pub fn error(&self, kind: ErrorKind) -> (r: Error)
        ensures
            r.0 == kind,
            r.1.original@ == self.original.path_view(),
            r.1.generate@ == self.generate.path_view(),
            r.1.source_time == self.source_time,
            r.1.target_time == self.target_time,
    {
        let t = Transform {
            original: self.original.path_parts(),
            generate: self.generate.path_parts(),
            source_time: self.source_time,
            target_time: self.target_time,
        };
        Error(kind, t)
    }
}

/// Whether a planned transform is to be carried out.
#[derive(Clone, Copy, Debug, PartialEq, Eq, Structural)]
pub enum TransformNeed {
    Needed,
    Unneeded,
}

/// A comparison that matched only because of millisecond truncation.
#[derive(Clone, Copy, Debug, PartialEq, Eq, Structural)]
pub enum PrecisionWarning {
    /// Source and target differ only below a millisecond; the target is kept.
    SourceTargetCoarseMatch,
    /// The stamp is older than the target only below a millisecond; the
    /// target is regenerated.
    StampTargetCoarseMatch,
}

/// The outcome of the divergence check.
pub enum Verdict {
    Needed,
    Unneeded,
    NoStamp,
    StampOlder,
}

/// The divergence check on a source modified at `s`, a target in state `t`,
/// and the stamp of the last run, if there is one.
pub open spec fn decide(s: Timestamp, t: MtimeResult, stamp: Option<Timestamp>) -> Verdict {
    match t {
        MtimeResult::NonExistant => Verdict::Needed,
        MtimeResult::Modified(tm) => {
            if s.spec_before(tm) {
                Verdict::Unneeded
            } else if s.ms() == tm.ms() {
                Verdict::Unneeded
            } else {
                match stamp {
                    None => Verdict::NoStamp,
                    Some(st) => if st.ms() < tm.ms() {
                        Verdict::StampOlder
                    } else {
                        Verdict::Needed
                    },
                }
            }
        },
    }
}

/// The warning that the divergence check gives along with its outcome.
pub open spec fn precision_note(s: Timestamp, t: MtimeResult, stamp: Option<Timestamp>) -> Option<PrecisionWarning> {
    match t {
        MtimeResult::NonExistant => None,
        MtimeResult::Modified(tm) => {
            if s.spec_before(tm) {
                None
            } else if s.ms() == tm.ms() {
                if s != tm { Some(PrecisionWarning::SourceTargetCoarseMatch) } else { None }
            } else {
                match stamp {
                    Some(st) => if st.ms() >= tm.ms() && st.spec_before(tm) {
                        Some(PrecisionWarning::StampTargetCoarseMatch)
                    } else {
                        None
                    },
                    None => None,
                }
            }
        },
    }
}

/// The result of the divergence check on `t`, given the stamp time of the
/// last run: whether to generate, or the refusal.
pub fn check_transform<X: HasPath, Y: HasPath>(stamp: Option<Timestamp>, t: &Transform<X, Y>)
    -> (r: Result<(TransformNeed, Option<PrecisionWarning>), Error>)
    ensures
        match decide(t.source_time, t.target_time, stamp) {
            Verdict::Needed => r == Ok::<_, Error>((TransformNeed::Needed, precision_note(t.source_time, t.target_time, stamp))),
            Verdict::Unneeded => r == Ok::<_, Error>((TransformNeed::Unneeded, precision_note(t.source_time, t.target_time, stamp))),
            Verdict::NoStamp => r is Err && r->Err_0.0 == (ErrorKind::NoTangoStampExists {
                tgt: r->Err_0.0->NoTangoStampExists_tgt,
                src: r->Err_0.0->NoTangoStampExists_src,
            }) && r->Err_0.0->NoTangoStampExists_src@ == display_path(t.original.path_view())
                && r->Err_0.0->NoTangoStampExists_tgt@ == display_path(t.generate.path_view()),
            Verdict::StampOlder => r is Err && r->Err_0.0 == (ErrorKind::TangoStampOlderThanTarget {
                tgt: r->Err_0.0->TangoStampOlderThanTarget_tgt,
            }) && r->Err_0.0->TangoStampOlderThanTarget_tgt@ == display_path(t.generate.path_view()),
        },
        r is Err ==> r->Err_0.1.original@ == t.original.path_view()
            && r->Err_0.1.generate@ == t.generate.path_view()
            && r->Err_0.1.source_time == t.source_time
            && r->Err_0.1.target_time == t.target_time,
{
    let t_mod = match t.target_time {
        MtimeResult::Modified(tm) => tm,
        MtimeResult::NonExistant => {
            return Ok((TransformNeed::Needed, None));
        },
    };
    let s_mod = t.source_time;
    let same_age_at_low_precision = s_mod.matches_low_precision(&t_mod);
    if s_mod.before(&t_mod) {
        // The target has newer edits: it is not overwritten.
        return Ok((TransformNeed::Unneeded, None));
    }
    if same_age_at_low_precision {
        let note = if s_mod != t_mod { Some(PrecisionWarning::SourceTargetCoarseMatch) } else { None };
        return Ok((TransformNeed::Unneeded, note));
    }
    match stamp {
        None => {
            let src = string_of(&t.original.path_parts().display());
            let tgt = string_of(&t.generate.path_parts().display());
            Err(t.error(ErrorKind::NoTangoStampExists { tgt, src }))
        },
        Some(stamp_time) => {
            let older_at_high_precision = stamp_time.before(&t_mod);
            let older_at_low_precision = stamp_time.to_ms() < t_mod.to_ms();
            if older_at_low_precision {
                // Both sides were edited since the last run.
                let tgt = string_of(&t.generate.path_parts().display());
                return Err(t.error(ErrorKind::TangoStampOlderThanTarget { tgt }));
            }
            let note = if older_at_high_precision {
                Some(PrecisionWarning::StampTargetCoarseMatch)
            } else {
                None
            };
            Ok((TransformNeed::Needed, note))
        },
    }
}

} // verus!
