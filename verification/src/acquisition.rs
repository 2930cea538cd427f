//! The frame acquisition loop's decision logic. After negotiation, the host
//! program repeatedly reads from the streaming endpoint and hands each
//! outcome here: a completed read delivers one frame packet, a timeout is
//! harmless and polling continues, anything else ends acquisition.

use vstd::prelude::*;

use crate::transport::TransferOutcome;

verus! {

/// What the loop does with one read's outcome.
#[derive(Clone, Copy, Debug, PartialEq, Eq, Structural)]
pub enum LoopStep {
    /// A frame packet arrived: this many bytes of the buffer are valid.
    Deliver(usize),
    /// The read timed out; poll again at once, reporting nothing.
    Poll,
    /// The transport failed; acquisition terminates and the error is the
    /// caller's to surface.
    Stop,
}

/// The loop's decision as a function of one outcome.
pub open spec fn classify_read_spec(outcome: TransferOutcome) -> LoopStep {
    match outcome {
        TransferOutcome::Completed(n) => LoopStep::Deliver(n),
        TransferOutcome::TimedOut => LoopStep::Poll,
        TransferOutcome::Faulted => LoopStep::Stop,
    }
}

/// Decides what one streaming read's outcome means for the loop. A timeout
/// never delivers a frame and never stops acquisition.
pub fn classify_read(outcome: TransferOutcome) -> (step: LoopStep)
    ensures
        step == classify_read_spec(outcome),
{
    match outcome {
        TransferOutcome::Completed(n) => LoopStep::Deliver(n),
        TransferOutcome::TimedOut => LoopStep::Poll,
        TransferOutcome::Faulted => LoopStep::Stop,
    }
}

/// How many leading bytes of a delivered packet the diagnostics look at:
/// the first sixteen, or fewer when the packet is shorter.
pub open spec fn header_len(count: int) -> int {
    if count < 16 {
        count
    } else {
        16
    }
}

/// Copies the diagnostic header of one frame packet: exactly the first
/// `header_len(count)` bytes of the buffer, never a byte past the reported
/// count. Bytes of the buffer beyond `count` are stale and stay untouched.
pub fn frame_header(buffer: &Vec<u8>, count: usize) -> (h: Vec<u8>)
    requires
        count <= buffer@.len(),
    ensures
        h@ == buffer@.take(header_len(count as int)),
{
    let limit: usize = if count < 16 {
        count
    } else {
        16
    };
    let mut h: Vec<u8> = Vec::new();
    let mut i: usize = 0;
    while i < limit
        invariant
            i <= limit,
            limit == header_len(count as int),
            count <= buffer@.len(),
            h@ =~= buffer@.take(i as int),
        decreases limit - i,
    {
        h.push(buffer[i]);
        i = i + 1;
    }
    proof {
        assert(h@ =~= buffer@.take(header_len(count as int)));
    }
    h
}

/// The byte counts of the frame packets a run of the loop delivers, given
/// the outcomes the transport returns in order: every completed read before
/// the first fault, timeouts passed over, nothing at or past the fault.
pub open spec fn delivered_counts(reads: Seq<TransferOutcome>) -> Seq<usize>
    decreases reads.len(),
{
    if reads.len() == 0 {
        Seq::empty()
    } else {
        match reads[0] {
            TransferOutcome::Completed(n) => seq![n] + delivered_counts(reads.drop_first()),
            TransferOutcome::TimedOut => delivered_counts(reads.drop_first()),
            TransferOutcome::Faulted => Seq::empty(),
        }
    }
}

/// Extending a fault-free run by one outcome extends its deliveries by at
/// most that outcome's frame.
proof fn lemma_delivered_counts_push(reads: Seq<TransferOutcome>, outcome: TransferOutcome)
    requires
        forall|j: int| 0 <= j < reads.len() ==> !(#[trigger] reads[j] is Faulted),
    ensures
        delivered_counts(reads.push(outcome)) == match outcome {
            TransferOutcome::Completed(n) => delivered_counts(reads).push(n),
            TransferOutcome::TimedOut => delivered_counts(reads),
            TransferOutcome::Faulted => delivered_counts(reads),
        },
    decreases reads.len(),
{
    if reads.len() == 0 {
        reveal_with_fuel(delivered_counts, 2);
        let s = reads.push(outcome);
        assert(s[0] == outcome);
        assert(s.drop_first() =~= Seq::<TransferOutcome>::empty());
        assert(delivered_counts(reads) =~= Seq::<usize>::empty());
        match outcome {
            TransferOutcome::Completed(n) => {
                assert(delivered_counts(s) == seq![n] + delivered_counts(s.drop_first()));
                assert(delivered_counts(s) =~= delivered_counts(reads).push(n));
            },
            TransferOutcome::TimedOut => {
                assert(delivered_counts(s) == delivered_counts(s.drop_first()));
            },
            TransferOutcome::Faulted => {
                assert(delivered_counts(s) =~= Seq::<usize>::empty());
            },
        }
    } else {
        assert(reads.push(outcome).drop_first() =~= reads.drop_first().push(outcome));
        lemma_delivered_counts_push(reads.drop_first(), outcome);
        match outcome {
            TransferOutcome::Completed(n) => {
                match reads[0] {
                    TransferOutcome::Completed(m) => {
                        assert(delivered_counts(reads.push(outcome)) =~= delivered_counts(
                            reads,
                        ).push(n));
                    },
                    TransferOutcome::TimedOut => {
                    },
                    TransferOutcome::Faulted => {
                    },
                }
            },
            _ => {
            },
        }
    }
}

/// Everything a finite run of the acquisition loop reported: the byte count
/// of each delivered frame packet, in order, and whether the run ended in a
/// transport fault.
pub struct AcquisitionReport {
    pub frames: Vec<usize>,
    pub faulted: bool,
}

/// Runs the acquisition loop against a transport whose outcome for each
/// read is the next entry of `reads`, stopping at the first fault; with no
/// fault the run ends only because the given outcomes do. Timeouts are
/// fully transparent: they deliver nothing and never end the run.
pub fn run_acquisition(reads: &Vec<TransferOutcome>) -> (report: AcquisitionReport)
    ensures
        report.frames@ == delivered_counts(reads@),
        report.faulted <==> exists|i: int| 0 <= i < reads@.len() && (#[trigger] reads@[i])
            is Faulted,
{
    let mut frames: Vec<usize> = Vec::new();
    let mut i: usize = 0;
    while i < reads.len()
        invariant
            i <= reads@.len(),
            forall|j: int| 0 <= j < i ==> !(#[trigger] reads@[j] is Faulted),
            frames@ == delivered_counts(reads@.take(i as int)),
        decreases reads@.len() - i,
    {
        let outcome = reads[i];
        proof {
            assert(reads@.take(i as int).push(outcome) =~= reads@.take(i + 1));
            lemma_delivered_counts_push(reads@.take(i as int), outcome);
        }
        match classify_read(outcome) {
            LoopStep::Deliver(n) => {
                frames.push(n);
            },
            LoopStep::Poll => {
            },
            LoopStep::Stop => {
                proof {
                    lemma_delivered_counts_cut(reads@, i as int);
                }
                return AcquisitionReport { frames, faulted: true };
            },
        }
        i = i + 1;
    }
    proof {
        assert(reads@.take(reads@.len() as int) =~= reads@);
    }
    AcquisitionReport { frames, faulted: false }
}

/// A fault cuts the deliveries: with no fault before position `f` and a
/// fault at it, the whole run delivers exactly what the run up to `f`
/// delivered.
proof fn lemma_delivered_counts_cut(reads: Seq<TransferOutcome>, f: int)
    requires
        0 <= f < reads.len(),
        forall|j: int| 0 <= j < f ==> !(#[trigger] reads[j] is Faulted),
        reads[f] is Faulted,
    ensures
        delivered_counts(reads) == delivered_counts(reads.take(f)),
    decreases f,
{
    if f == 0 {
        assert(delivered_counts(reads.take(0)) =~= Seq::<usize>::empty());
    } else {
        assert(reads.drop_first().take(f - 1) =~= reads.take(f).drop_first());
        lemma_delivered_counts_cut(reads.drop_first(), f - 1);
        match reads[0] {
            TransferOutcome::Completed(n) => {
                assert(delivered_counts(reads) =~= seq![n] + delivered_counts(
                    reads.drop_first(),
                ));
                assert(delivered_counts(reads.take(f)) =~= seq![n] + delivered_counts(
                    reads.take(f).drop_first(),
                ));
            },
            TransferOutcome::TimedOut => {
            },
            TransferOutcome::Faulted => {
            },
        }
    }
}

/// Timeout transparency law: a run whose every read times out delivers no
/// frame and reports no fault, however long it goes on.
pub proof fn lemma_timeout_transparency(reads: Seq<TransferOutcome>)
    requires
        forall|i: int| 0 <= i < reads.len() ==> #[trigger] reads[i] is TimedOut,
    ensures
        delivered_counts(reads) =~= Seq::<usize>::empty(),
        !exists|i: int| 0 <= i < reads.len() && (#[trigger] reads[i]) is Faulted,
    decreases reads.len(),
{
    if reads.len() > 0 {
        assert(reads[0] is TimedOut);
        lemma_timeout_transparency(reads.drop_first());
    }
}

} // verus!
