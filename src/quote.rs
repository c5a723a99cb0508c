use vstd::prelude::*;

use crate::price::Price;

verus! {

/// Wait before the first read, letting the subscription warm up.
pub const WARM_UP_MS: u64 = 1000;

/// Wait after a read that gave no usable price.
pub const RETRY_DELAY_MS: u64 = 500;

/// How long one read waits for the next tick.
pub const READ_TIMEOUT_MS: u64 = 1000;

/// Reads in all: ten polling attempts and one final attempt.
pub const MAX_READS: u32 = 11;

/// What one read of a quote subscription gave.
#[derive(Clone, Copy, PartialEq, Eq, Structural, Debug)]
pub enum TickRead {
    /// A price tick with its value.
    Price(Price),
    /// A tick of another kind.
    OtherTick,
    /// No tick before the timeout, or the stream had ended.
    Nothing,
    /// The stream reported an error.
    Failed,
}

/// What the caller does next while acquiring a quote.
#[derive(Clone, Copy, PartialEq, Eq, Structural, Debug)]
pub enum QuoteStep {
    /// Wait `delay_ms`, then read the subscription once.
    Read { delay_ms: u64 },
    /// Stop: cancel the subscription if `cancel` holds, and answer `price`.
    Finish { price: Option<Price>, cancel: bool },
}

/// Progress of one quote acquisition: reads made so far, and whether it ended.
#[derive(Clone, Copy, PartialEq, Eq, Structural, Debug)]
pub struct QuotePoll {
    pub reads: u32,
    pub finished: bool,
}

/// A read that settles the quote: a strictly positive price.
pub open spec fn usable(r: TickRead) -> bool {
    match r {
        TickRead::Price(p) => p.units > 0,
        _ => false,
    }
}

/// A read that ends the acquisition: a usable price or a stream error.
pub open spec fn ends_poll(r: TickRead) -> bool {
    usable(r) || r == TickRead::Failed
}

/// The first state and step of an acquisition, with or without a subscription.
pub open spec fn poll_start(subscribed: bool) -> (QuotePoll, QuoteStep) {
    if subscribed {
        (QuotePoll { reads: 0, finished: false }, QuoteStep::Read { delay_ms: WARM_UP_MS })
    } else {
        (QuotePoll { reads: 0, finished: true }, QuoteStep::Finish { price: None, cancel: false })
    }
}

/// The state and step after read `r`.
pub open spec fn poll_step(p: QuotePoll, r: TickRead) -> (QuotePoll, QuoteStep) {
    if p.finished {
        (p, QuoteStep::Finish { price: None, cancel: false })
    } else if p.reads >= MAX_READS {
        (
            QuotePoll { reads: p.reads, finished: true },
            QuoteStep::Finish { price: None, cancel: true },
        )
    } else {
        let q = QuotePoll { reads: (p.reads + 1) as u32, finished: true };
        match r {
            TickRead::Price(price) if price.units > 0 => (
                q,
                QuoteStep::Finish { price: Some(price), cancel: true },
            ),
            TickRead::Failed => (q, QuoteStep::Finish { price: None, cancel: true }),
            _ => if p.reads + 1 < MAX_READS {
                (
                    QuotePoll { reads: (p.reads + 1) as u32, finished: false },
                    QuoteStep::Read { delay_ms: RETRY_DELAY_MS },
                )
            } else {
                (q, QuoteStep::Finish { price: None, cancel: true })
            },
        }
    }
}

/// Feeds `reads` to the acquisition in order until it finishes; the final
/// state and the last step taken (`last` when nothing was fed).
pub open spec fn poll_feed(p: QuotePoll, reads: Seq<TickRead>, last: QuoteStep) -> (
    QuotePoll,
    QuoteStep,
)
    decreases reads.len(),
{
    if reads.len() == 0 || p.finished {
        (p, last)
    } else {
        let (q, s) = poll_step(p, reads[0]);
        poll_feed(q, reads.drop_first(), s)
    }
}

/// Picks, among the symbols of the contracts that a ticker resolved to, the
/// first that is exactly the ticker; only that contract is subscribed to.
pub fn select_contract(symbols: &Vec<String>, ticker: &str) -> (r: Option<usize>)
    ensures
        match r {
            Some(i) => {
                &&& i < symbols@.len()
                &&& symbols@[i as int]@ == ticker@
                &&& forall|j: int| 0 <= j < i ==> (#[trigger] symbols@[j])@ != ticker@
            },
            None => forall|j: int| 0 <= j < symbols@.len() ==> (#[trigger] symbols@[j])@ != ticker@,
        },
{
    let wanted = String::from_str(ticker);
    let mut i: usize = 0;
    while i < symbols.len()
        invariant
            i <= symbols@.len(),
            wanted@ == ticker@,
            forall|j: int| 0 <= j < i ==> (#[trigger] symbols@[j])@ != ticker@,
        decreases symbols@.len() - i,
    {
        if symbols[i] == wanted {
            return Some(i);
        }
        i = i + 1;
    }
    None
}

impl QuotePoll {
    /// Begins an acquisition. Without a subscription there is nothing to
    /// read and the answer is absent at once; with one, the first read comes
    /// after the warm-up.
    pub fn start(subscribed: bool) -> (r: (QuotePoll, QuoteStep))
        ensures
            r == poll_start(subscribed),
    {
        if subscribed {
            (QuotePoll { reads: 0, finished: false }, QuoteStep::Read { delay_ms: WARM_UP_MS })
        } else {
            (QuotePoll { reads: 0, finished: true }, QuoteStep::Finish { price: None, cancel: false })
        }
    }

    /// Takes the outcome of the read just made and says what to do next.
    pub fn on_read(&mut self, r: TickRead) -> (step: QuoteStep)
        ensures
            (*final(self), step) == poll_step(*old(self), r),
    {
        if self.finished {
            return QuoteStep::Finish { price: None, cancel: false };
        }
        if self.reads >= MAX_READS {
            self.finished = true;
            return QuoteStep::Finish { price: None, cancel: true };
        }
        self.reads = self.reads + 1;
        match r {
            TickRead::Price(price) => {
                if price.units > 0 {
                    self.finished = true;
                    return QuoteStep::Finish { price: Some(price), cancel: true };
                }
            },
            TickRead::Failed => {
                self.finished = true;
                return QuoteStep::Finish { price: None, cancel: true };
            },
            _ => {},
        }
        if self.reads < MAX_READS {
            QuoteStep::Read { delay_ms: RETRY_DELAY_MS }
        } else {
            self.finished = true;
            QuoteStep::Finish { price: None, cancel: true }
        }
    }
}

proof fn lemma_feed_stops_at_price(p: QuotePoll, reads: Seq<TickRead>, last: QuoteStep, k: int)
    requires
        !p.finished,
        0 <= k < reads.len(),
        p.reads + k < MAX_READS,
        usable(reads[k]),
        forall|j: int| 0 <= j < k ==> !ends_poll(#[trigger] reads[j]),
    ensures
        poll_feed(p, reads, last) == (
            QuotePoll { reads: (p.reads + k + 1) as u32, finished: true },
            QuoteStep::Finish { price: Some(reads[k]->Price_0), cancel: true },
        ),
    decreases k,
{
    let (q, s) = poll_step(p, reads[0]);
    let rest = reads.drop_first();
    assert(poll_feed(p, reads, last) == poll_feed(q, rest, s));
    if k > 0 {
        assert(!ends_poll(reads[0]));
        let rest = reads.drop_first();
        assert forall|j: int| 0 <= j < k - 1 implies !ends_poll(#[trigger] rest[j]) by {
            assert(rest[j] == reads[j + 1]);
        }
        assert(rest[k - 1] == reads[k]);
        lemma_feed_stops_at_price(q, rest, s, k - 1);
    } else {
        assert(poll_feed(q, rest, s) == (q, s));
    }
}

proof fn lemma_feed_gives_up(p: QuotePoll, reads: Seq<TickRead>, last: QuoteStep)
    requires
        !p.finished,
        p.reads < MAX_READS,
        reads.len() >= MAX_READS - p.reads,
        forall|j: int| 0 <= j < MAX_READS - p.reads ==> !usable(#[trigger] reads[j]),
    ensures
        poll_feed(p, reads, last).0.finished,
        poll_feed(p, reads, last).0.reads <= MAX_READS,
        poll_feed(p, reads, last).1 == (QuoteStep::Finish { price: None, cancel: true }),
    decreases MAX_READS - p.reads,
{
    let (q, s) = poll_step(p, reads[0]);
    let rest = reads.drop_first();
    assert(poll_feed(p, reads, last) == poll_feed(q, rest, s));
    if !q.finished {
        assert forall|j: int| 0 <= j < MAX_READS - q.reads implies !usable(#[trigger] rest[j]) by {
            assert(rest[j] == reads[j + 1]);
        }
        lemma_feed_gives_up(q, rest, s);
    } else {
        assert(poll_feed(q, rest, s) == (q, s));
    }
}

/// An acquisition answers the first strictly positive price it reads and
/// makes no read after it: when that price is read `k` (counting from zero,
/// among the eleven reads allowed) and no error came before it, exactly
/// `k + 1` reads are made and the subscription is cancelled.
pub proof fn lemma_quote_first_price_wins(reads: Seq<TickRead>, k: int)
    requires
        0 <= k < MAX_READS,
        k < reads.len(),
        usable(reads[k]),
        forall|j: int| 0 <= j < k ==> !ends_poll(#[trigger] reads[j]),
    ensures
        ({
            let (p, s) = poll_start(true);
            poll_feed(p, reads, s) == (
                QuotePoll { reads: (k + 1) as u32, finished: true },
                QuoteStep::Finish { price: Some(reads[k]->Price_0), cancel: true },
            )
        }),
{
    let (p, s) = poll_start(true);
    lemma_feed_stops_at_price(p, reads, s, k);
}

/// An acquisition whose ten attempts and final attempt bring no strictly
/// positive price answers absent, after at most eleven reads, and releases
/// its subscription.
pub proof fn lemma_quote_gives_up(reads: Seq<TickRead>)
    requires
        reads.len() >= MAX_READS,
        forall|j: int| 0 <= j < MAX_READS ==> !usable(#[trigger] reads[j]),
    ensures
        ({
            let (p, s) = poll_start(true);
            &&& poll_feed(p, reads, s).0.finished
            &&& poll_feed(p, reads, s).0.reads <= MAX_READS
            &&& poll_feed(p, reads, s).1 == (QuoteStep::Finish { price: None, cancel: true })
        }),
{
    let (p, s) = poll_start(true);
    lemma_feed_gives_up(p, reads, s);
}

/// Without a matching contract no subscription is opened and the answer is
/// absent at once, with nothing to cancel.
pub proof fn lemma_quote_without_contract(reads: Seq<TickRead>)
    ensures
        ({
            let (p, s) = poll_start(false);
            poll_feed(p, reads, s) == (p, QuoteStep::Finish { price: None, cancel: false })
        }),
{
}

} // verus!
