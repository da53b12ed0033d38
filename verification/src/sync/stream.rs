//! Streams of results, and stages that process them one by one.
use crate::sync::error::SyncError;
use vstd::prelude::*;

verus! {

/// An item of a stream, or why the stream failed.
pub type SyncResult<T> = Result<T, SyncError>;

/// A stream of results.
pub trait SyncStream<T>: Sized {
    /// What the stream still holds.
    spec fn remaining(&self) -> Seq<SyncResult<T>>;

    /// Takes the next item.
    fn next(&mut self) -> (r: Option<SyncResult<T>>)
        ensures
            match r {
                Some(item) => old(self).remaining().len() > 0 && item == old(self).remaining()[0]
                    && final(self).remaining() == old(self).remaining().drop_first(),
                None => old(self).remaining().len() == 0 && final(self).remaining() == old(self).remaining(),
            },
    ;
}

/// A stream of items that are at hand.
pub struct Items<T> {
    /// What the stream still holds, last item first.
    reversed: Vec<SyncResult<T>>,
}

impl<T> Items<T> {
    /// The stream of the given items.
    pub fn new(items: Vec<SyncResult<T>>) -> (r: Items<T>)
        ensures
            r.remaining() == items@,
    {
        let ghost all = items@;
        let mut items = items;
        let mut reversed: Vec<SyncResult<T>> = Vec::new();
        while items.len() > 0
            invariant
                items@.len() <= all.len(),
                items@ == all.take(items@.len() as int),
                reversed@ == all.skip(items@.len() as int).reverse(),
            decreases items.len(),
        {
            let ghost n = items@.len() as int;
            if let Some(item) = items.pop() {
                reversed.push(item);
            }
            proof {
                assert(items@ =~= all.take(n - 1));
                assert(all.skip(n - 1).reverse() =~= all.skip(n).reverse().push(all[n - 1]));
            }
        }
        proof {
            assert(all.skip(0) =~= all);
            assert(reversed@.reverse() =~= all);
        }
        Items { reversed }
    }

    /// The items that the stream still holds.
    pub fn collect(self) -> (r: Vec<SyncResult<T>>)
        ensures
            r@ == self.remaining(),
    {
        let ghost all = self.remaining();
        let mut stream = self;
        let mut r: Vec<SyncResult<T>> = Vec::new();
        assert(r@ =~= all.take(0));
        assert(stream.remaining() =~= all.skip(0));
        loop
            invariant
                r@.len() <= all.len(),
                r@ == all.take(r@.len() as int),
                stream.remaining() == all.skip(r@.len() as int),
            ensures
                r@ == all,
            decreases stream.remaining().len(),
        {
            match stream.next() {
                Some(item) => {
                    let ghost n = r@.len() as int;
                    r.push(item);
                    proof {
                        assert(all.take(n + 1) =~= all.take(n).push(all[n]));
                        assert(all.skip(n).drop_first() =~= all.skip(n + 1));
                    }
                },
                None => {
                    assert(r@.len() == all.len());
                    assert(r@ =~= all);
                    break;
                },
            }
        }
        r
    }
}

impl<T> SyncStream<T> for Items<T> {
    closed spec fn remaining(&self) -> Seq<SyncResult<T>> {
        self.reversed@.reverse()
    }

    fn next(&mut self) -> (r: Option<SyncResult<T>>) {
        let ghost before = self.reversed@;
        let r = self.reversed.pop();
        proof {
            if before.len() > 0 {
                assert(self.reversed@.reverse() =~= before.reverse().drop_first());
            }
        }
        r
    }
}

/// A stage of a pipeline.
pub trait Stage: Sized {
    /// What the stage takes.
    type Input;

    /// What the stage gives.
    type Output;

    /// Whether the stage may answer `input` with `output` and be `after` then. A stage that does
    /// not say may answer anything.
    open spec fn handles(
        before: Self,
        input: Self::Input,
        after: Self,
        output: Option<SyncResult<Self::Output>>,
    ) -> bool {
        true
    }

    /// Processes an item. `None` means that there is nothing to pass on yet.
    fn handle(&mut self, input: Self::Input) -> (r: Option<SyncResult<Self::Output>>)
        ensures
            Self::handles(*old(self), input, *final(self), r),
    ;
}

/// What a pipeline does next with an item of its input.
pub enum PipeInput<I> {
    /// Hand the item to the stage.
    Handle(I),
    /// Pass the failure on, then stop.
    FailAndStop(SyncError),
    /// Stop: the input has ended.
    Stop,
}

/// What a pipeline does with what its input gave: items go to the stage, a failure is passed on
/// and ends the pipeline.
pub fn pipe_input<I>(input: Option<SyncResult<I>>) -> (r: PipeInput<I>)
    ensures
        match input {
            Some(Ok(item)) => r == PipeInput::Handle(item),
            Some(Err(e)) => r == PipeInput::<I>::FailAndStop(e),
            None => r is Stop,
        },
{
    match input {
        Some(Ok(item)) => PipeInput::Handle(item),
        Some(Err(e)) => PipeInput::FailAndStop(e),
        None => PipeInput::Stop,
    }
}

/// Whether a pipeline goes on after its stage answered, given whether there was anything to pass
/// on and whether its receiver is still there. A failure of the stage does not end the pipeline.
pub fn pipe_goes_on(sent: bool, receiver_is_there: bool) -> (r: bool)
    ensures
        r == (!sent || receiver_is_there),
{
    !sent || receiver_is_there
}

/// What a stage answered to the first items of a pipeline's input.
pub struct Trace<S: Stage> {
    /// The stage before each item and after the last one.
    pub states: Seq<S>,
    /// The answers.
    pub replies: Seq<Option<SyncResult<S::Output>>>,
}

impl<S: Stage> Trace<S> {
    /// Whether the stage may have answered like this.
    pub open spec fn runs(self, inputs: Seq<SyncResult<S::Input>>, stage: S) -> bool {
        &&& self.replies.len() <= inputs.len()
        &&& self.states.len() == self.replies.len() + 1
        &&& self.states[0] == stage
        &&& forall|i: int| 0 <= i < self.replies.len() ==> (#[trigger] inputs[i]) is Ok
        &&& forall|i: int|
            0 <= i < self.replies.len() ==> S::handles(
                self.states[i],
                inputs[i]->Ok_0,
                self.states[i + 1],
                #[trigger] self.replies[i],
            )
    }

    /// Whether the pipeline ends here: the input has ended or failed.
    pub open spec fn ends(self, inputs: Seq<SyncResult<S::Input>>) -> bool {
        self.replies.len() == inputs.len() || inputs[self.replies.len() as int] is Err
    }
}

/// What is passed on of a stage's answers.
pub open spec fn passed_on<O>(replies: Seq<Option<SyncResult<O>>>) -> Seq<SyncResult<O>>
    decreases replies.len(),
{
    if replies.len() == 0 {
        Seq::empty()
    } else {
        match replies.last() {
            Some(output) => passed_on(replies.drop_last()).push(output),
            None => passed_on(replies.drop_last()),
        }
    }
}

/// Whether `outputs` is what a pipeline gives: the answers of its stage to the items before the
/// first failure of the input, and then this failure.
pub open spec fn is_piped<S: Stage>(
    inputs: Seq<SyncResult<S::Input>>,
    stage: S,
    outputs: Seq<SyncResult<S::Output>>,
) -> bool {
    exists|trace: Trace<S>|
        {
            &&& #[trigger] trace.runs(inputs, stage)
            &&& trace.ends(inputs)
            &&& outputs == passed_on(trace.replies) + if trace.replies.len() < inputs.len() {
                seq![Err(inputs[trace.replies.len() as int]->Err_0)]
            } else {
                Seq::empty()
            }
        }
}

/// Streams that can be piped through stages.
pub trait SyncStreamExt<T>: SyncStream<T> {
    /// Pipes the stream through a stage. `buffer` is how many results may wait to be taken.
    fn pipe<S: Stage<Input = T>>(self, stage: S, buffer: usize) -> (r: Items<S::Output>)
        requires
            buffer > 0,
        ensures
            is_piped(self.remaining(), stage, r.remaining()),
    ;
}

impl<T, U: SyncStream<T>> SyncStreamExt<T> for U {
    fn pipe<S: Stage<Input = T>>(self, stage: S, buffer: usize) -> (r: Items<S::Output>) {
        let ghost inputs = self.remaining();
        let ghost first = stage;
        let mut stream = self;
        let mut stage = stage;
        let mut outputs: Vec<SyncResult<S::Output>> = Vec::new();
        let ghost mut trace = Trace::<S> { states: seq![stage], replies: Seq::empty() };
        assert(stream.remaining() =~= inputs.skip(0));
        loop
            invariant_except_break
                outputs@ == passed_on(trace.replies),
                trace.runs(inputs, first),
                trace.states.last() == stage,
                stream.remaining() == inputs.skip(trace.replies.len() as int),
            ensures
                is_piped(inputs, first, outputs@),
            decreases stream.remaining().len(),
        {
            let ghost n = trace.replies.len() as int;
            let item = stream.next();
            match pipe_input(item) {
                PipeInput::Handle(input) => {
                    assert(inputs.skip(n)[0] == inputs[n]);
                    let reply = stage.handle(input);
                    proof {
                        let states = trace.states.push(stage);
                        let replies = trace.replies.push(reply);
                        assert(replies.drop_last() =~= trace.replies);
                        let next = Trace::<S> { states, replies };
                        assert forall|i: int| 0 <= i < replies.len() implies S::handles(
                            states[i],
                            inputs[i]->Ok_0,
                            states[i + 1],
                            #[trigger] replies[i],
                        ) by {
                            if i < n {
                                assert(trace.replies[i] == replies[i]);
                            }
                        }
                        assert(inputs.skip(n).drop_first() =~= inputs.skip(n + 1));
                        trace = next;
                    }
                    if let Some(output) = reply {
                        outputs.push(output);
                    }
                },
                PipeInput::FailAndStop(e) => {
                    outputs.push(Err(e));
                    assert(outputs@ =~= passed_on(trace.replies) + seq![Err(inputs[n]->Err_0)]);
                    assert(trace.runs(inputs, first) && trace.ends(inputs));
                    break;
                },
                PipeInput::Stop => {
                    assert(outputs@ =~= passed_on(trace.replies) + Seq::empty());
                    assert(trace.runs(inputs, first) && trace.ends(inputs));
                    break;
                },
            }
        }
        Items::new(outputs)
    }
}

/// What is passed on of answers is what is passed on of the first ones, and then of the others.
pub proof fn lemma_passed_on_in_order<O>(a: Seq<Option<SyncResult<O>>>, b: Seq<Option<SyncResult<O>>>)
    ensures
        passed_on(a + b) == passed_on(a) + passed_on(b),
        a.len() == 1 ==> passed_on(a) == match a[0] {
            Some(output) => seq![output],
            None => Seq::empty(),
        },
    decreases b.len(),
{
    if a.len() == 1 {
        reveal_with_fuel(passed_on, 2);
        assert(a.drop_last().len() == 0);
        assert(passed_on(a) =~= match a[0] {
            Some(output) => seq![output],
            None => Seq::empty(),
        });
    }
    if b.len() == 0 {
        assert(a + b =~= a);
        assert(passed_on(a) + passed_on(b) =~= passed_on(a));
    } else {
        lemma_passed_on_in_order(a, b.drop_last());
        assert((a + b).drop_last() =~= a + b.drop_last());
        assert((a + b).last() == b.last());
        assert(passed_on(a + b) =~= passed_on(a) + passed_on(b));
    }
}

/// What a pipeline gives, item by item. Of an input that has ended it gives nothing. A failure of
/// the input is the last thing that it gives. An item is handed to the stage, its answer comes
/// first, and what follows is what the pipeline gives of the rest of the input, with the stage as it
/// is after the answer.
pub proof fn lemma_pipe_item_by_item<S: Stage>(
    inputs: Seq<SyncResult<S::Input>>,
    stage: S,
    outputs: Seq<SyncResult<S::Output>>,
)
    requires
        is_piped(inputs, stage, outputs),
    ensures
        inputs.len() == 0 ==> outputs.len() == 0,
        inputs.len() > 0 ==> match inputs[0] {
            Err(e) => outputs == seq![Err::<S::Output, _>(e)],
            Ok(item) => exists|after: S, reply: Option<SyncResult<S::Output>>, rest: Seq<SyncResult<S::Output>>|
                {
                    &&& #[trigger] S::handles(stage, item, after, reply)
                    &&& #[trigger] is_piped(inputs.drop_first(), after, rest)
                    &&& outputs == match reply {
                        Some(output) => seq![output] + rest,
                        None => rest,
                    }
                },
        },
{
    let trace = choose|trace: Trace<S>|
        {
            &&& #[trigger] trace.runs(inputs, stage)
            &&& trace.ends(inputs)
            &&& outputs == passed_on(trace.replies) + if trace.replies.len() < inputs.len() {
                seq![Err(inputs[trace.replies.len() as int]->Err_0)]
            } else {
                Seq::empty()
            }
        };
    if inputs.len() == 0 {
        assert(trace.replies.len() == 0);
    } else if inputs[0] is Err {
        if trace.replies.len() > 0 {
            assert(inputs[0] is Ok);
        }
        assert(outputs =~= seq![Err::<S::Output, _>(inputs[0]->Err_0)]);
    } else {
        let tail = inputs.drop_first();
        let reply = trace.replies[0];
        let after = trace.states[1];
        let replies = trace.replies.drop_first();
        let next = Trace::<S> { states: trace.states.drop_first(), replies };
        assert(S::handles(trace.states[0], inputs[0]->Ok_0, trace.states[1], trace.replies[0]));
        assert(next.runs(tail, after)) by {
            assert forall|i: int| 0 <= i < replies.len() implies (#[trigger] tail[i]) is Ok by {
                assert(inputs[i + 1] is Ok);
            }
            assert forall|i: int| 0 <= i < replies.len() implies S::handles(
                next.states[i],
                tail[i]->Ok_0,
                next.states[i + 1],
                #[trigger] replies[i],
            ) by {
                assert(trace.replies[i + 1] == replies[i]);
            }
        }
        let end = if trace.replies.len() < inputs.len() {
            seq![Err(inputs[trace.replies.len() as int]->Err_0)]
        } else {
            Seq::empty()
        };
        let rest = passed_on(replies) + end;
        assert(next.ends(tail));
        assert(is_piped(tail, after, rest));
        lemma_passed_on_in_order(seq![reply], replies);
        assert(seq![reply] + replies =~= trace.replies);
        assert(outputs =~= match reply {
            Some(output) => seq![output] + rest,
            None => rest,
        });
    }
}

} // verus!
