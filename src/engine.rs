use vstd::prelude::*;
use crate::Error;
use crate::check::{Transform, TransformNeed, PrecisionWarning, Verdict, decide,
    precision_note, check_transform};
use crate::paths::{RsPath, MdPath};
use crate::timestamp::{Timestamp, MtimeResult};

verus! {

/// `m` is one of `s` and no element of `s` is later than it.
pub open spec fn is_newest(m: Timestamp, s: Seq<Timestamp>) -> bool {
    s.contains(m) && forall|i: int| 0 <= i < s.len() ==> !m.spec_before(#[trigger] s[i])
}

/// The file was modified, at another time than `planned`.
pub open spec fn changed_since(planned: Timestamp, now: MtimeResult) -> bool {
    match now {
        MtimeResult::Modified(t) => t != planned,
        MtimeResult::NonExistant => false,
    }
}

/// The state of one run: the stamp time of the last run, the transforms
/// planned in each direction, and the newest source time seen.
pub struct Context {
    pub orig_stamp: Option<Timestamp>,
    pub src_inputs: Vec<Transform<RsPath, MdPath>>,
    pub lit_inputs: Vec<Transform<MdPath, RsPath>>,
    pub newest_stamp: Option<Timestamp>,
    pub emit_rerun_if: bool,
    /// The source times of every input looked at so far.
    pub observed: Ghost<Seq<Timestamp>>,
}

impl Context {
    /// The newest time is the newest of the times observed, and every
    /// planned transform's source time was observed.
    pub open spec fn wf(&self) -> bool {
        &&& (self.newest_stamp is None <==> self.observed@.len() == 0)
        &&& (self.newest_stamp matches Some(n) ==> is_newest(n, self.observed@))
        &&& forall|i: int| 0 <= i < self.src_inputs@.len()
            ==> self.observed@.contains(#[trigger] self.src_inputs@[i].source_time)
        &&& forall|i: int| 0 <= i < self.lit_inputs@.len()
            ==> self.observed@.contains(#[trigger] self.lit_inputs@[i].source_time)
    }

    pub fn new(orig_stamp: Option<Timestamp>) -> (r: Context)
        ensures
            r.wf(),
            r.orig_stamp == orig_stamp,
            r.src_inputs@.len() == 0,
            r.lit_inputs@.len() == 0,
            r.newest_stamp is None,
            r.observed@.len() == 0,
            r.emit_rerun_if,
    {
        Context {
            orig_stamp,
            src_inputs: Vec::new(),
            lit_inputs: Vec::new(),
            newest_stamp: None,
            emit_rerun_if: true,
            observed: Ghost(Seq::empty()),
        }
    }

    /// Records a source time seen on an input.
    pub fn update_newest_time(&mut self, new_time: Timestamp)
        requires
            old(self).wf(),
        ensures
            final(self).wf(),
            final(self).observed@ == old(self).observed@.push(new_time),
            final(self).newest_stamp == Some(match old(self).newest_stamp {
                None => new_time,
                Some(n) => if n.spec_before(new_time) { new_time } else { n },
            }),
            final(self).orig_stamp == old(self).orig_stamp,
            final(self).src_inputs@ == old(self).src_inputs@,
            final(self).lit_inputs@ == old(self).lit_inputs@,
            final(self).emit_rerun_if == old(self).emit_rerun_if,
    {
        let ghost obs = self.observed@;
        match self.newest_stamp {
            Some(n) => {
                if n.before(&new_time) {
                    self.newest_stamp = Some(new_time);
                }
            },
            None => {
                self.newest_stamp = Some(new_time);
            },
        }
        self.observed = Ghost(obs.push(new_time));
        proof {
            let o2 = obs.push(new_time);
            assert(o2[obs.len() as int] == new_time);
            assert forall|i: int| 0 <= i < obs.len() implies o2.contains(#[trigger] obs[i]) by {
                assert(o2[i] == obs[i]);
            }
            let m = self.newest_stamp->0;
            assert forall|i: int| 0 <= i < o2.len() implies !m.spec_before(#[trigger] o2[i]) by {
                if i < obs.len() {
                    assert(o2[i] == obs[i]);
                }
            }
            if old(self).newest_stamp is Some && !old(self).newest_stamp->0.spec_before(new_time) {
                let k = choose|k: int| 0 <= k < obs.len() && obs[k] == m;
                assert(o2[k] == m);
            }
        }
    }

    pub fn push_src(&mut self, t: Transform<RsPath, MdPath>)
        requires
            old(self).wf(),
        ensures
            final(self).wf(),
            final(self).src_inputs@ == old(self).src_inputs@.push(t),
            final(self).observed@ == old(self).observed@.push(t.source_time),
            final(self).orig_stamp == old(self).orig_stamp,
            final(self).lit_inputs@ == old(self).lit_inputs@,
            final(self).emit_rerun_if == old(self).emit_rerun_if,
    {
        self.update_newest_time(t.source_time);
        let ghost obs = self.observed@;
        self.src_inputs.push(t);
        assert(obs[obs.len() - 1] == t.source_time);
        assert(self.src_inputs@[self.src_inputs@.len() - 1] == t);
    }

    pub fn push_lit(&mut self, t: Transform<MdPath, RsPath>)
        requires
            old(self).wf(),
        ensures
            final(self).wf(),
            final(self).lit_inputs@ == old(self).lit_inputs@.push(t),
            final(self).observed@ == old(self).observed@.push(t.source_time),
            final(self).orig_stamp == old(self).orig_stamp,
            final(self).src_inputs@ == old(self).src_inputs@,
            final(self).emit_rerun_if == old(self).emit_rerun_if,
    {
        self.update_newest_time(t.source_time);
        let ghost obs = self.observed@;
        self.lit_inputs.push(t);
        assert(obs[obs.len() - 1] == t.source_time);
        assert(self.lit_inputs@[self.lit_inputs@.len() - 1] == t);
    }
    /// Takes in a source file found by the planner: records its time, runs
    /// the divergence check, and queues the transform where it is needed.
    pub fn consider_src(&mut self, t: Transform<RsPath, MdPath>) -> (r: Result<Option<PrecisionWarning>, Error>)
        requires
            old(self).wf(),
        ensures
            final(self).wf(),
            final(self).observed@ == old(self).observed@.push(t.source_time),
            final(self).orig_stamp == old(self).orig_stamp,
            final(self).lit_inputs@ == old(self).lit_inputs@,
            match decide(t.source_time, t.target_time, old(self).orig_stamp) {
                Verdict::Needed => r == Ok::<_, Error>(precision_note(t.source_time, t.target_time, old(self).orig_stamp))
                    && final(self).src_inputs@ == old(self).src_inputs@.push(t),
                Verdict::Unneeded => r == Ok::<_, Error>(precision_note(t.source_time, t.target_time, old(self).orig_stamp))
                    && final(self).src_inputs@ == old(self).src_inputs@,
                Verdict::NoStamp => r matches Err(Error::CheckInputError { error })
                    && error.0 is NoTangoStampExists
                    && final(self).src_inputs@ == old(self).src_inputs@,
                Verdict::StampOlder => r matches Err(Error::CheckInputError { error })
                    && error.0 is TangoStampOlderThanTarget
                    && final(self).src_inputs@ == old(self).src_inputs@,
            },
    {
        let checked = check_transform(self.orig_stamp, &t);
        match checked {
            Ok((TransformNeed::Needed, note)) => {
                self.push_src(t);
                Ok(note)
            },
            Ok((TransformNeed::Unneeded, note)) => {
                self.update_newest_time(t.source_time);
                Ok(note)
            },
            Err(e) => {
                self.update_newest_time(t.source_time);
                Err(Error::CheckInputError { error: e })
            },
        }
    }

    /// Takes in a literate file found by the planner, as `consider_src` does
    /// a source file.
    pub fn consider_lit(&mut self, t: Transform<MdPath, RsPath>) -> (r: Result<Option<PrecisionWarning>, Error>)
        requires
            old(self).wf(),
        ensures
            final(self).wf(),
            final(self).observed@ == old(self).observed@.push(t.source_time),
            final(self).orig_stamp == old(self).orig_stamp,
            final(self).src_inputs@ == old(self).src_inputs@,
            match decide(t.source_time, t.target_time, old(self).orig_stamp) {
                Verdict::Needed => r == Ok::<_, Error>(precision_note(t.source_time, t.target_time, old(self).orig_stamp))
                    && final(self).lit_inputs@ == old(self).lit_inputs@.push(t),
                Verdict::Unneeded => r == Ok::<_, Error>(precision_note(t.source_time, t.target_time, old(self).orig_stamp))
                    && final(self).lit_inputs@ == old(self).lit_inputs@,
                Verdict::NoStamp => r matches Err(Error::CheckInputError { error })
                    && error.0 is NoTangoStampExists
                    && final(self).lit_inputs@ == old(self).lit_inputs@,
                Verdict::StampOlder => r matches Err(Error::CheckInputError { error })
                    && error.0 is TangoStampOlderThanTarget
                    && final(self).lit_inputs@ == old(self).lit_inputs@,
            },
    {
        let checked = check_transform(self.orig_stamp, &t);
        match checked {
            Ok((TransformNeed::Needed, note)) => {
                self.push_lit(t);
                Ok(note)
            },
            Ok((TransformNeed::Unneeded, note)) => {
                self.update_newest_time(t.source_time);
                Ok(note)
            },
            Err(e) => {
                self.update_newest_time(t.source_time);
                Err(Error::CheckInputError { error: e })
            },
        }
    }

    /// Compares the source times read again after generation with those seen
    /// when planning: `src_now[i]` and `lit_now[i]` are the times now of the
    /// `i`-th queued transform's source in each direction.
    pub fn check_input_timestamps(&self, src_now: &Vec<MtimeResult>, lit_now: &Vec<MtimeResult>) -> (r: Result<(), Error>)
        requires
            src_now@.len() == self.src_inputs@.len(),
            lit_now@.len() == self.lit_inputs@.len(),
        ensures
            r is Ok <==> (forall|i: int| 0 <= i < src_now@.len()
                ==> !changed_since(self.src_inputs@[i].source_time, #[trigger] src_now@[i]))
                && (forall|i: int| 0 <= i < lit_now@.len()
                ==> !changed_since(self.lit_inputs@[i].source_time, #[trigger] lit_now@[i])),
            r matches Err(e) ==> e matches Error::ConcurrentUpdate { path_buf, old_time, new_time }
                && ((exists|i: int| 0 <= i < src_now@.len()
                    && changed_since(self.src_inputs@[i].source_time, src_now@[i])
                    && path_buf@ == self.src_inputs@[i].original@
                    && old_time == self.src_inputs@[i].source_time
                    && src_now@[i] == MtimeResult::Modified(new_time))
                || (exists|i: int| 0 <= i < lit_now@.len()
                    && changed_since(self.lit_inputs@[i].source_time, lit_now@[i])
                    && path_buf@ == self.lit_inputs@[i].original@
                    && old_time == self.lit_inputs@[i].source_time
                    && lit_now@[i] == MtimeResult::Modified(new_time))),
    {
        let mut i: usize = 0;
        while i < src_now.len()
            invariant
                i <= src_now@.len(),
                src_now@.len() == self.src_inputs@.len(),
                forall|j: int| 0 <= j < i ==> !changed_since(self.src_inputs@[j].source_time, #[trigger] src_now@[j]),
            decreases src_now.len() - i,
        {
            let old_time = self.src_inputs[i].source_time;
            if let MtimeResult::Modified(new_time) = src_now[i] {
                if new_time != old_time {
                    let path_buf = self.src_inputs[i].original.path().copy();
                    return Err(Error::ConcurrentUpdate { path_buf, old_time, new_time });
                }
            }
            i = i + 1;
        }
        let mut k: usize = 0;
        while k < lit_now.len()
            invariant
                k <= lit_now@.len(),
                lit_now@.len() == self.lit_inputs@.len(),
                forall|j: int| 0 <= j < k ==> !changed_since(self.lit_inputs@[j].source_time, #[trigger] lit_now@[j]),
            decreases lit_now.len() - k,
        {
            let old_time = self.lit_inputs[k].source_time;
            if let MtimeResult::Modified(new_time) = lit_now[k] {
                if new_time != old_time {
                    let path_buf = self.lit_inputs[k].original.path().copy();
                    return Err(Error::ConcurrentUpdate { path_buf, old_time, new_time });
                }
            }
            k = k + 1;
        }
        Ok(())
    }
}

} // verus!
