//! One transcription run: the fixed ordered progress stages emitted around
//! the inference call, and the assembly of the produced text segments into
//! the final transcript (segments joined by single spaces, the result
//! trimmed of leading and trailing blanks).

use vstd::prelude::*;
use crate::progress::{TranscriptionProgress, TranscriptionStage};

verus! {

/// An ASCII blank character.
pub open spec fn is_blank(c: char) -> bool {
    c == ' ' || c == '\t' || c == '\n' || c == '\r'
}

/// The segments, each followed by one space, concatenated in order.
pub open spec fn joined(segs: Seq<Seq<char>>) -> Seq<char>
    decreases segs.len(),
{
    if segs.len() == 0 {
        Seq::<char>::empty()
    } else {
        joined(segs.drop_last()) + segs.last() + seq![' ']
    }
}

/// The sequence with leading blanks removed.
pub open spec fn trim_front(s: Seq<char>) -> Seq<char>
    decreases s.len(),
{
    if s.len() > 0 && is_blank(s[0]) {
        trim_front(s.subrange(1, s.len() as int))
    } else {
        s
    }
}

/// The sequence with trailing blanks removed.
pub open spec fn trim_back(s: Seq<char>) -> Seq<char>
    decreases s.len(),
{
    if s.len() > 0 && is_blank(s.last()) {
        trim_back(s.drop_last())
    } else {
        s
    }
}

/// The sequence with leading and trailing blanks removed.
pub open spec fn trimmed(s: Seq<char>) -> Seq<char> {
    trim_back(trim_front(s))
}

/// The final transcript of a run that produced these segments.
pub open spec fn transcript_of(segs: Seq<Seq<char>>) -> Seq<char> {
    trimmed(joined(segs))
}

/// If everything before `lo` is blank and, unless the whole sequence is
/// blank, `lo` itself is not, then trimming the front drops exactly the
/// first `lo` characters.
proof fn lemma_trim_front_at(s: Seq<char>, lo: int)
    requires
        0 <= lo <= s.len(),
        forall|i: int| 0 <= i < lo ==> is_blank(#[trigger] s[i]),
        lo < s.len() ==> !is_blank(s[lo]),
    ensures
        trim_front(s) =~= s.subrange(lo, s.len() as int),
    decreases lo,
{
    if lo == 0 {
        if s.len() > 0 && is_blank(s[0]) {
            assert(false);
        }
        assert(trim_front(s) =~= s.subrange(0, s.len() as int));
    } else {
        let t = s.subrange(1, s.len() as int);
        assert(forall|i: int| 0 <= i < lo - 1 ==> is_blank(#[trigger] t[i]));
        lemma_trim_front_at(t, lo - 1);
        assert(t.subrange(lo - 1, t.len() as int) =~= s.subrange(lo, s.len() as int));
    }
}

/// If everything after `hi` is blank and `hi` itself is not, then trimming
/// the back keeps exactly the first `hi + 1` characters.
proof fn lemma_trim_back_at(s: Seq<char>, hi: int)
    requires
        -1 <= hi < s.len(),
        forall|i: int| hi < i < s.len() ==> is_blank(#[trigger] s[i]),
        hi >= 0 ==> !is_blank(s[hi]),
    ensures
        trim_back(s) =~= s.subrange(0, hi + 1),
    decreases s.len() - hi,
{
    if hi == s.len() - 1 {
        assert(trim_back(s) =~= s.subrange(0, s.len() as int));
    } else {
        assert(is_blank(s.last()));
        let t = s.drop_last();
        assert(forall|i: int| hi < i < t.len() ==> is_blank(#[trigger] t[i]));
        lemma_trim_back_at(t, hi);
        assert(t.subrange(0, hi + 1) =~= s.subrange(0, hi + 1));
    }
}

/// Joins the segments, one space after each, and trims ASCII blanks from
/// both ends.
pub fn assemble_transcript(segments: &Vec<String>) -> (r: String)
    ensures
        r@ == transcript_of(segments.deep_view()),
{
    let ghost all: Seq<Seq<char>> = segments.deep_view();
    let mut raw = String::new();
    let mut k: usize = 0;
    while k < segments.len()
        invariant
            all == segments.deep_view(),
            k <= segments.len(),
            all.len() == segments.len(),
            raw@ == joined(all.take(k as int)),
        decreases segments.len() - k,
    {
        raw.append(segments[k].as_str());
        raw.append(" ");
        proof {
            reveal_strlit(" ");
            let pre = all.take(k as int);
            let cur = all.take(k + 1int);
            assert(cur.drop_last() =~= pre);
            assert(cur.last() == all[k as int]);
            assert(raw@ =~= joined(cur.drop_last()) + cur.last() + seq![' ']);
        }
        k = k + 1;
    }
    proof {
        assert(all.take(all.len() as int) =~= all);
    }
    trim_blanks(raw)
}

/// Returns the string with leading and trailing ASCII blanks removed.
pub fn trim_blanks(s: String) -> (r: String)
    ensures
        r@ == trimmed(s@),
{
    let st = s.as_str();
    let n: usize = st.unicode_len();
    let mut lo: usize = 0;
    while lo < n && is_blank_char(st.get_char(lo))
        invariant
            st@ == s@,
            n == s@.len(),
            lo <= n,
            forall|i: int| 0 <= i < lo ==> is_blank(#[trigger] s@[i]),
        decreases n - lo,
    {
        lo = lo + 1;
    }
    if lo == n {
        proof {
            lemma_trim_front_at(s@, n as int);
            lemma_trim_back_at(Seq::<char>::empty(), -1);
            assert(s@.subrange(n as int, n as int) =~= Seq::<char>::empty());
        }
        return String::new();
    }
    let mut hi: usize = n - 1;
    while is_blank_char(st.get_char(hi))
        invariant
            st@ == s@,
            n == s@.len(),
            lo <= hi < n,
            !is_blank(s@[lo as int]),
            forall|i: int| hi < i < n ==> is_blank(#[trigger] s@[i]),
        decreases hi,
    {
        hi = hi - 1;
    }
    let out = st.substring_char(lo, hi + 1);
    proof {
        lemma_trim_front_at(s@, lo as int);
        let front = s@.subrange(lo as int, n as int);
        lemma_trim_back_at(front, hi - lo);
        assert(front.subrange(0, hi - lo + 1) =~= s@.subrange(lo as int, hi + 1int));
    }
    String::from_str(out)
}

/// Whether the character is an ASCII blank.
pub fn is_blank_char(c: char) -> (r: bool)
    ensures
        r == is_blank(c),
{
    c == ' ' || c == '\t' || c == '\n' || c == '\r'
}

/// Phase of one transcription run; each non-terminal phase names the part
/// of the work whose completion it is waiting for.
#[derive(Clone, Copy, Debug, PartialEq, Eq, Structural)]
pub enum FlowPhase {
    /// Waiting for parameter setup to begin.
    Created,
    /// Parameters announced; waiting for the inference call.
    Prepared,
    /// Inference announced; waiting for its completion.
    Processing,
    /// Inference done; waiting for the segments.
    Finalizing,
    /// Transcript assembled; the run is over.
    Done,
}

/// The four snapshots of a full run, in emission order.
pub open spec fn canonical_stages() -> Seq<TranscriptionProgress> {
    seq![
        TranscriptionProgress { stage: TranscriptionStage::LoadingModel, percent: 0u8 },
        TranscriptionProgress { stage: TranscriptionStage::ProcessingAudio, percent: 33u8 },
        TranscriptionProgress { stage: TranscriptionStage::Finalizing, percent: 66u8 },
        TranscriptionProgress { stage: TranscriptionStage::Complete, percent: 100u8 },
    ]
}

/// One transcription run. Each step hands back the snapshot to emit, and
/// the ghost log ties the run to the canonical ordered stage sequence.
pub struct TranscribeFlow {
    phase: FlowPhase,
    emitted: Ghost<Seq<TranscriptionProgress>>,
}

impl TranscribeFlow {
    /// The run's invariant: what was emitted is exactly the prefix of the
    /// canonical stage sequence that the phase says.
    pub closed spec fn inv(&self) -> bool {
        &&& match self.phase {
            FlowPhase::Created => self.emitted@ =~= canonical_stages().take(0),
            FlowPhase::Prepared => self.emitted@ =~= canonical_stages().take(1),
            FlowPhase::Processing => self.emitted@ =~= canonical_stages().take(2),
            FlowPhase::Finalizing => self.emitted@ =~= canonical_stages().take(3),
            FlowPhase::Done => self.emitted@ =~= canonical_stages(),
        }
    }

    pub closed spec fn phase(&self) -> FlowPhase {
        self.phase
    }

    pub closed spec fn emitted_log(&self) -> Seq<TranscriptionProgress> {
        self.emitted@
    }

    /// A run that has emitted nothing yet.
    pub closed spec fn fresh(&self) -> bool {
        self.phase == FlowPhase::Created && self.emitted@ =~= Seq::<
            TranscriptionProgress,
        >::empty()
    }

    /// A fresh run.
    pub fn new() -> (f: TranscribeFlow)
        ensures
            f.fresh(),
            f.inv(),
            f.phase() == FlowPhase::Created,
            f.emitted_log() == Seq::<TranscriptionProgress>::empty(),
    {
        let f = TranscribeFlow { phase: FlowPhase::Created, emitted: Ghost(Seq::empty()) };
        proof {
            assert(canonical_stages().take(0) =~= Seq::<TranscriptionProgress>::empty());
        }
        f
    }

    /// Announces parameter setup; emitted before anything else happens.
    pub fn note_preparing(&mut self) -> (p: TranscriptionProgress)
        requires
            old(self).inv(),
            old(self).phase() == FlowPhase::Created,
        ensures
            final(self).inv(),
            final(self).phase() == FlowPhase::Prepared,
            p == (TranscriptionProgress { stage: TranscriptionStage::LoadingModel, percent: 0u8 }),
            final(self).emitted_log() == old(self).emitted_log().push(p),
    {
        let p = TranscriptionProgress { stage: TranscriptionStage::LoadingModel, percent: 0 };
        self.phase = FlowPhase::Prepared;
        proof {
            self.emitted@ = self.emitted@.push(p);
            assert(self.emitted@ =~= canonical_stages().take(1));
        }
        p
    }

    /// Announces the inference call, just before it is made.
    pub fn note_processing(&mut self) -> (p: TranscriptionProgress)
        requires
            old(self).inv(),
            old(self).phase() == FlowPhase::Prepared,
        ensures
            final(self).inv(),
            final(self).phase() == FlowPhase::Processing,
            p == (TranscriptionProgress {
                stage: TranscriptionStage::ProcessingAudio,
                percent: 33u8,
            }),
            final(self).emitted_log() == old(self).emitted_log().push(p),
    {
        let p = TranscriptionProgress { stage: TranscriptionStage::ProcessingAudio, percent: 33 };
        self.phase = FlowPhase::Processing;
        proof {
            self.emitted@ = self.emitted@.push(p);
            assert(self.emitted@ =~= canonical_stages().take(2));
        }
        p
    }

    /// Announces that inference completed, before the segments are read
    /// out.
    pub fn note_finalizing(&mut self) -> (p: TranscriptionProgress)
        requires
            old(self).inv(),
            old(self).phase() == FlowPhase::Processing,
        ensures
            final(self).inv(),
            final(self).phase() == FlowPhase::Finalizing,
            p == (TranscriptionProgress { stage: TranscriptionStage::Finalizing, percent: 66u8 }),
            final(self).emitted_log() == old(self).emitted_log().push(p),
    {
        let p = TranscriptionProgress { stage: TranscriptionStage::Finalizing, percent: 66 };
        self.phase = FlowPhase::Finalizing;
        proof {
            self.emitted@ = self.emitted@.push(p);
            assert(self.emitted@ =~= canonical_stages().take(3));
        }
        p
    }

    /// Assembles the transcript from the produced segments and closes the
    /// run with the completion snapshot.
    pub fn finish(&mut self, segments: &Vec<String>) -> (out: (String, TranscriptionProgress))
        requires
            old(self).inv(),
            old(self).phase() == FlowPhase::Finalizing,
        ensures
            final(self).inv(),
            final(self).phase() == FlowPhase::Done,
            out.0@ == transcript_of(segments.deep_view()),
            out.1 == (TranscriptionProgress { stage: TranscriptionStage::Complete, percent: 100u8 }),
            final(self).emitted_log() == old(self).emitted_log().push(out.1),
            final(self).emitted_log() =~= canonical_stages(),
    {
        let text = assemble_transcript(segments);
        let p = TranscriptionProgress { stage: TranscriptionStage::Complete, percent: 100 };
        self.phase = FlowPhase::Done;
        proof {
            self.emitted@ = self.emitted@.push(p);
            assert(self.emitted@ =~= canonical_stages());
        }
        (text, p)
    }
}

/// A run that finished emitted exactly the four stages, in their fixed
/// order.
pub proof fn lemma_done_emission_order(f: TranscribeFlow)
    requires
        f.inv(),
        f.phase() == FlowPhase::Done,
    ensures
        f.emitted_log() =~= canonical_stages(),
{
}

} // verus!
