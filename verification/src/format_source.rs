//! The state machine of the source that reads data uploaded over HTTP in
//! some input format: it receives chunks of bytes, has them parsed into
//! blocks, and pushes the blocks downstream. The receiving, the parsing and
//! the ports are driven from outside; this module decides.
use vstd::prelude::*;

use crate::error_code::ErrorCode;
use crate::error_code::ErrorKind;

verus! {

/// What the source is waiting for.
#[derive(Debug)]
pub enum SourceState {
    /// The next chunk of bytes.
    NeedReceiveData,
    /// Parsing a chunk that arrived.
    ReceivedData(Vec<u8>),
    /// Turning what was parsed so far into blocks.
    NeedDeserialize,
}

/// What the pipeline should do with the source next.
#[derive(PartialEq, Eq, Structural, Clone, Copy, Debug)]
pub enum Event {
    /// The source is done.
    Finished,
    /// Downstream must take what was pushed first.
    NeedConsume,
    /// Wait for data to arrive.
    Async,
    /// Parse or deserialize now.
    Sync,
}

/// The answer of the source to the pipeline: the event, the block to push
/// downstream if any, and whether to close the output.
#[derive(Debug)]
pub struct SourceEvent<B> {
    pub event: Event,
    pub push: Option<B>,
    pub finish_output: bool,
}

/// The work `process` hands to the parser.
#[derive(Debug)]
pub enum ProcessInput {
    /// A chunk to parse.
    Data(Vec<u8>),
    /// Deserialize what was parsed.
    Deserialize,
}

/// The source: its state, whether the upload ended, whether the header of
/// the data was skipped, and the blocks waiting to be pushed (the next one
/// last).
#[derive(Debug)]
pub struct SequentialInputFormatSource<B> {
    state: SourceState,
    finished: bool,
    skipped_header: bool,
    data_block: Vec<B>,
}

/// What the source is.
pub struct SourceView<B> {
    pub state: SourceState,
    pub finished: bool,
    pub skipped_header: bool,
    pub pending: Seq<B>,
}

impl<B> View for SequentialInputFormatSource<B> {
    type V = SourceView<B>;

    closed spec fn view(&self) -> SourceView<B> {
        SourceView {
            state: self.state,
            finished: self.finished,
            skipped_header: self.skipped_header,
            pending: self.data_block@,
        }
    }
}

impl<B> SequentialInputFormatSource<B> {
    /// A source waiting for its first chunk.
    pub fn create() -> (r: SequentialInputFormatSource<B>)
        ensures
            r@.state is NeedReceiveData,
            !r@.finished,
            !r@.skipped_header,
            r@.pending == Seq::<B>::empty(),
    {
        SequentialInputFormatSource {
            state: SourceState::NeedReceiveData,
            finished: false,
            skipped_header: false,
            data_block: Vec::new(),
        }
    }

    /// What the pipeline does next: nothing more once the output is
    /// finished; wait while downstream is full; push the next waiting block;
    /// close the output once the upload ended and nothing is left to
    /// deserialize; otherwise receive data, or parse or deserialize.
    pub fn event(&mut self, output_finished: bool, output_can_push: bool) -> (r: SourceEvent<B>)
        ensures
            output_finished ==> r.event == Event::Finished && r.push is None && !r.finish_output
                && final(self)@ == old(self)@,
            !output_finished && !output_can_push ==> r.event == Event::NeedConsume && r.push is None
                && !r.finish_output && final(self)@ == old(self)@,
            !output_finished && output_can_push && old(self)@.pending.len() > 0 ==> {
                &&& r.event == Event::NeedConsume
                &&& r.push == Some(old(self)@.pending.last())
                &&& !r.finish_output
                &&& final(self)@ == (SourceView { pending: old(self)@.pending.drop_last(), ..old(self)@ })
            },
            !output_finished && output_can_push && old(self)@.pending.len() == 0 ==> {
                &&& r.push is None
                &&& final(self)@ == old(self)@
                &&& if old(self)@.finished && !(old(self)@.state is NeedDeserialize) {
                    r.event == Event::Finished && r.finish_output
                } else {
                    !r.finish_output && r.event == match old(self)@.state {
                        SourceState::NeedReceiveData => Event::Async,
                        _ => Event::Sync,
                    }
                }
            },
    {
        if output_finished {
            return SourceEvent { event: Event::Finished, push: None, finish_output: false };
        }
        if !output_can_push {
            return SourceEvent { event: Event::NeedConsume, push: None, finish_output: false };
        }
        if let Some(block) = self.data_block.pop() {
            return SourceEvent { event: Event::NeedConsume, push: Some(block), finish_output: false };
        }
        let deserializing = match &self.state {
            SourceState::NeedDeserialize => true,
            _ => false,
        };
        if self.finished && !deserializing {
            return SourceEvent { event: Event::Finished, push: None, finish_output: true };
        }
        let event = match &self.state {
            SourceState::NeedReceiveData => Event::Async,
            SourceState::ReceivedData(_) => Event::Sync,
            SourceState::NeedDeserialize => Event::Sync,
        };
        SourceEvent { event, push: None, finish_output: false }
    }

    /// Whether the source waits for a chunk: only then is one received.
    pub fn wants_data(&self) -> (r: bool)
        ensures
            r == (self@.state is NeedReceiveData),
    {
        match &self.state {
            SourceState::NeedReceiveData => true,
            _ => false,
        }
    }

    /// What the source does with what was received (`None` when nothing
    /// was received, or the upload ended): a chunk of bytes is parsed next;
    /// an empty chunk marks the start of another file, whose header is to be
    /// skipped, and what was parsed is deserialized; a failure is the
    /// answer; the end of the upload finishes the source after a last
    /// deserialization.
    pub fn async_process(&mut self, received: Option<Result<Vec<u8>, ErrorCode>>) -> (r: Result<(), ErrorCode>)
        ensures
            final(self)@.pending == old(self)@.pending,
            match (old(self)@.state, received) {
                (SourceState::NeedReceiveData, Some(Ok(bytes))) => r is Ok && final(self)@.finished == old(self)@.finished
                    && if bytes@.len() > 0 {
                        final(self)@.state == SourceState::ReceivedData(bytes)
                            && final(self)@.skipped_header == old(self)@.skipped_header
                    } else {
                        final(self)@.state is NeedDeserialize && !final(self)@.skipped_header
                    },
                (SourceState::NeedReceiveData, Some(Err(e))) => r == Err::<(), ErrorCode>(e)
                    && final(self)@.state is NeedReceiveData && final(self)@.finished == old(self)@.finished
                    && final(self)@.skipped_header == old(self)@.skipped_header,
                _ => r is Ok && final(self)@.finished && final(self)@.state is NeedDeserialize
                    && final(self)@.skipped_header == old(self)@.skipped_header,
            },
    {
        let mut previous = SourceState::NeedReceiveData;
        std::mem::swap(&mut previous, &mut self.state);
        match previous {
            SourceState::NeedReceiveData => match received {
                Some(Ok(bytes)) => {
                    if bytes.len() > 0 {
                        self.state = SourceState::ReceivedData(bytes);
                    } else {
                        self.skipped_header = false;
                        self.state = SourceState::NeedDeserialize;
                    }
                    return Ok(());
                },
                Some(Err(e)) => {
                    return Err(e);
                },
                None => {},
            },
            _ => {},
        }
        self.finished = true;
        self.state = SourceState::NeedDeserialize;
        Ok(())
    }

    /// Starts a synchronous step: the chunk to parse, or deserialization;
    /// the source then waits for data again. A source that waits for data
    /// has nothing to process, which is a `LogicalError`.
    pub fn begin_process(&mut self) -> (r: Result<ProcessInput, ErrorCode>)
        ensures
            final(self)@ == (SourceView { state: SourceState::NeedReceiveData, ..old(self)@ }),
            match old(self)@.state {
                SourceState::ReceivedData(data) => r matches Ok(ProcessInput::Data(d)) && d == data,
                SourceState::NeedDeserialize => r matches Ok(ProcessInput::Deserialize),
                SourceState::NeedReceiveData => r matches Err(e) && e.kind == ErrorKind::LogicalError
                    && e.message@ == "State failure in Multipart format."@,
            },
    {
        let mut previous = SourceState::NeedReceiveData;
        std::mem::swap(&mut previous, &mut self.state);
        match previous {
            SourceState::ReceivedData(data) => Ok(ProcessInput::Data(data)),
            SourceState::NeedDeserialize => Ok(ProcessInput::Deserialize),
            SourceState::NeedReceiveData => Err(ErrorCode::create(
                ErrorKind::LogicalError,
                String::from_str("State failure in Multipart format."),
            )),
        }
    }

    /// Whether the header of the data was skipped.
    pub fn skipped_header(&self) -> (r: bool)
        ensures
            r == self@.skipped_header,
    {
        self.skipped_header
    }

    /// Records how much of a chunk of `len` bytes the header took: once
    /// the header ends inside the chunk, it is skipped for good.
    pub fn note_header_skip(&mut self, skip_size: usize, len: usize)
        ensures
            final(self)@ == (SourceView {
                skipped_header: old(self)@.skipped_header || skip_size < len,
                ..old(self)@
            }),
    {
        if skip_size < len {
            self.skipped_header = true;
        }
    }

    /// Adds the blocks a parse produced, to be pushed in their order.
    pub fn add_blocks(&mut self, blocks: Vec<B>)
        ensures
            final(self)@ == (SourceView { pending: old(self)@.pending + blocks@.reverse(), ..old(self)@ }),
    {
        let mut blocks = blocks;
        let ghost all = blocks@;
        let ghost start = self.data_block@;
        while blocks.len() > 0
            invariant
                self.state == old(self).state,
                self.finished == old(self).finished,
                self.skipped_header == old(self).skipped_header,
                blocks@.len() <= all.len(),
                blocks@ == all.subrange(0, blocks@.len() as int),
                self.data_block@ == start + all.subrange(blocks@.len() as int, all.len() as int).reverse(),
            decreases blocks@.len(),
        {
            let ghost n = blocks@.len() as int;
            let b = blocks.pop().unwrap();
            assert(b == all[n - 1]);
            self.data_block.push(b);
            assert(all.subrange(n - 1, all.len() as int).reverse() =~= all.subrange(n, all.len() as int).reverse().push(all[n - 1]));
            assert(blocks@ =~= all.subrange(0, n - 1));
        }
        assert(all.subrange(0, all.len() as int) =~= all);
    }
}

/// The blocks of one parse are pushed downstream in the order the parser
/// produced them: after adding them, the next block pushed is their first.
pub proof fn law_blocks_pushed_in_order<B>(pending: Seq<B>, blocks: Seq<B>)
    requires
        blocks.len() > 0,
    ensures
        (pending + blocks.reverse()).last() == blocks[0],
{
}

} // verus!
