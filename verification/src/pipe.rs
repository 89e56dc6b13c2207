//! Pipes of a query pipeline: a row of processors with their input and
//! output ports, and the builders that assemble them.
use vstd::prelude::*;

use std::sync::Arc;

verus! {

/// A processor of the pipeline, by its id.
#[derive(PartialEq, Eq, Structural, Clone, Copy, Debug)]
pub struct ProcessorPtr {
    pub id: u64,
}

/// An input port of a processor, by its id.
#[derive(PartialEq, Eq, Structural, Clone, Copy, Debug)]
pub struct InputPort {
    pub id: u64,
}

/// An output port of a processor, by its id.
#[derive(PartialEq, Eq, Structural, Clone, Copy, Debug)]
pub struct OutputPort {
    pub id: u64,
}

/// A pipe: processors side by side, each with its ports, or one processor
/// that resizes any number of inputs to any number of outputs.
#[derive(Debug)]
pub enum Pipe {
    SimplePipe {
        processors: Vec<ProcessorPtr>,
        inputs_port: Vec<Arc<InputPort>>,
        outputs_port: Vec<Arc<OutputPort>>,
    },
    ResizePipe {
        processor: ProcessorPtr,
        inputs_port: Vec<Arc<InputPort>>,
        outputs_port: Vec<Arc<OutputPort>>,
    },
}

/// The number of processors of a pipe.
pub open spec fn pipe_size(p: Pipe) -> nat {
    match p {
        Pipe::ResizePipe { .. } => 1,
        Pipe::SimplePipe { processors, .. } => processors@.len(),
    }
}

/// The input ports of a pipe.
pub open spec fn pipe_inputs(p: Pipe) -> Seq<Arc<InputPort>> {
    match p {
        Pipe::SimplePipe { inputs_port, .. } => inputs_port@,
        Pipe::ResizePipe { inputs_port, .. } => inputs_port@,
    }
}

/// The output ports of a pipe.
pub open spec fn pipe_outputs(p: Pipe) -> Seq<Arc<OutputPort>> {
    match p {
        Pipe::SimplePipe { outputs_port, .. } => outputs_port@,
        Pipe::ResizePipe { outputs_port, .. } => outputs_port@,
    }
}

impl Pipe {
    /// The number of processors.
    pub fn size(&self) -> (r: usize)
        ensures
            r == pipe_size(*self),
    {
        match self {
            Pipe::ResizePipe { .. } => 1,
            Pipe::SimplePipe { processors, .. } => processors.len(),
        }
    }

    /// The number of input ports.
    pub fn input_size(&self) -> (r: usize)
        ensures
            r == pipe_inputs(*self).len(),
    {
        match self {
            Pipe::SimplePipe { inputs_port, .. } => inputs_port.len(),
            Pipe::ResizePipe { inputs_port, .. } => inputs_port.len(),
        }
    }

    /// The number of output ports.
    pub fn output_size(&self) -> (r: usize)
        ensures
            r == pipe_outputs(*self).len(),
    {
        match self {
            Pipe::SimplePipe { outputs_port, .. } => outputs_port.len(),
            Pipe::ResizePipe { outputs_port, .. } => outputs_port.len(),
        }
    }

    /// The processor at a position: of a simple pipe, the one at the index;
    /// of a resize pipe, its only processor.
    pub fn processor_by_index(&self, index: usize) -> (r: ProcessorPtr)
        requires
            index < pipe_size(*self) || self is ResizePipe,
        ensures
            r == match *self {
                Pipe::SimplePipe { processors, .. } => processors@[index as int],
                Pipe::ResizePipe { processor, .. } => processor,
            },
    {
        match self {
            Pipe::SimplePipe { processors, .. } => processors[index],
            Pipe::ResizePipe { processor, .. } => *processor,
        }
    }
}

/// Builds a pipe of sources: processors with an output port each.
#[derive(Debug)]
pub struct SourcePipeBuilder {
    processors: Vec<ProcessorPtr>,
    outputs_port: Vec<Arc<OutputPort>>,
}

impl SourcePipeBuilder {
    /// The sources added so far.
    pub closed spec fn processors_view(&self) -> Seq<ProcessorPtr> {
        self.processors@
    }

    /// The output ports added so far.
    pub closed spec fn outputs_view(&self) -> Seq<Arc<OutputPort>> {
        self.outputs_port@
    }

    /// A builder with no sources.
    pub fn create() -> (r: SourcePipeBuilder)
        ensures
            r.processors_view() == Seq::<ProcessorPtr>::empty(),
            r.outputs_view() == Seq::<Arc<OutputPort>>::empty(),
    {
        SourcePipeBuilder { processors: Vec::new(), outputs_port: Vec::new() }
    }

    /// The simple pipe of the sources, with no input ports; each source
    /// must have its output port.
    pub fn finalize(self) -> (r: Pipe)
        requires
            self.processors_view().len() == self.outputs_view().len(),
        ensures
            r matches Pipe::SimplePipe { processors, inputs_port, outputs_port }
                && processors@ == self.processors_view()
                && inputs_port@ == Seq::<Arc<InputPort>>::empty()
                && outputs_port@ == self.outputs_view(),
    {
        Pipe::SimplePipe {
            processors: self.processors,
            inputs_port: Vec::new(),
            outputs_port: self.outputs_port,
        }
    }

    /// Adds a source with its output port.
    pub fn add_source(&mut self, output_port: Arc<OutputPort>, source: ProcessorPtr)
        ensures
            final(self).processors_view() == old(self).processors_view().push(source),
            final(self).outputs_view() == old(self).outputs_view().push(output_port),
    {
        self.processors.push(source);
        self.outputs_port.push(output_port);
    }
}

/// Reads what other nodes of the cluster send to this one.
#[derive(Debug)]
pub struct ExchangeSource {}

impl ExchangeSource {
    /// The pipe of the sources that merge what the exchange receives: one
    /// source for each output port and processor given, in order.
    pub fn create_source(sources: Vec<(Arc<OutputPort>, ProcessorPtr)>) -> (r: Pipe)
        ensures
            r matches Pipe::SimplePipe { processors, inputs_port, outputs_port }
                && processors@.len() == sources@.len()
                && outputs_port@.len() == sources@.len()
                && inputs_port@ == Seq::<Arc<InputPort>>::empty()
                && forall|i: int| 0 <= i < sources@.len() ==> {
                    &&& #[trigger] processors@[i] == sources@[i].1
                    &&& outputs_port@[i] == sources@[i].0
                },
    {
        let mut builder = SourcePipeBuilder::create();
        let mut rest = sources;
        let ghost all = rest@;
        while rest.len() > 0
            invariant
                all.len() == builder.processors_view().len() + rest@.len(),
                builder.processors_view().len() == builder.outputs_view().len(),
                rest@ == all.subrange(builder.processors_view().len() as int, all.len() as int),
                forall|i: int| 0 <= i < builder.processors_view().len() ==> {
                    &&& #[trigger] builder.processors_view()[i] == all[i].1
                    &&& builder.outputs_view()[i] == all[i].0
                },
            decreases rest@.len(),
        {
            let ghost done: int = builder.processors_view().len() as int;
            let (port, source) = rest.remove(0);
            assert((port, source) == all[done]);
            builder.add_source(port, source);
            assert(rest@ =~= all.subrange(done + 1, all.len() as int));
        }
        builder.finalize()
    }
}

/// Builds a pipe of sinks: processors with an input port each.
#[derive(Debug)]
pub struct SinkPipeBuilder {
    processors: Vec<ProcessorPtr>,
    inputs_port: Vec<Arc<InputPort>>,
}

impl SinkPipeBuilder {
    /// The sinks added so far.
    pub closed spec fn processors_view(&self) -> Seq<ProcessorPtr> {
        self.processors@
    }

    /// The input ports added so far.
    pub closed spec fn inputs_view(&self) -> Seq<Arc<InputPort>> {
        self.inputs_port@
    }

    /// A builder with no sinks.
    pub fn create() -> (r: SinkPipeBuilder)
        ensures
            r.processors_view() == Seq::<ProcessorPtr>::empty(),
            r.inputs_view() == Seq::<Arc<InputPort>>::empty(),
    {
        SinkPipeBuilder { processors: Vec::new(), inputs_port: Vec::new() }
    }

    /// The simple pipe of the sinks, with no output ports; each sink must
    /// have its input port.
    pub fn finalize(self) -> (r: Pipe)
        requires
            self.processors_view().len() == self.inputs_view().len(),
        ensures
            r matches Pipe::SimplePipe { processors, inputs_port, outputs_port }
                && processors@ == self.processors_view()
                && inputs_port@ == self.inputs_view()
                && outputs_port@ == Seq::<Arc<OutputPort>>::empty(),
    {
        Pipe::SimplePipe {
            processors: self.processors,
            inputs_port: self.inputs_port,
            outputs_port: Vec::new(),
        }
    }

    /// Adds a sink with its input port.
    pub fn add_sink(&mut self, inputs_port: Arc<InputPort>, sink: ProcessorPtr)
        ensures
            final(self).processors_view() == old(self).processors_view().push(sink),
            final(self).inputs_view() == old(self).inputs_view().push(inputs_port),
    {
        self.processors.push(sink);
        self.inputs_port.push(inputs_port);
    }
}

/// Builds a pipe of transforms: processors with an input and an output port each.
#[derive(Debug)]
pub struct TransformPipeBuilder {
    processors: Vec<ProcessorPtr>,
    inputs_port: Vec<Arc<InputPort>>,
    outputs_port: Vec<Arc<OutputPort>>,
}

impl TransformPipeBuilder {
    /// The transforms added so far.
    pub closed spec fn processors_view(&self) -> Seq<ProcessorPtr> {
        self.processors@
    }

    /// The input ports added so far.
    pub closed spec fn inputs_view(&self) -> Seq<Arc<InputPort>> {
        self.inputs_port@
    }

    /// The output ports added so far.
    pub closed spec fn outputs_view(&self) -> Seq<Arc<OutputPort>> {
        self.outputs_port@
    }

    /// A builder with no transforms.
    pub fn create() -> (r: TransformPipeBuilder)
        ensures
            r.processors_view() == Seq::<ProcessorPtr>::empty(),
            r.inputs_view() == Seq::<Arc<InputPort>>::empty(),
            r.outputs_view() == Seq::<Arc<OutputPort>>::empty(),
    {
        TransformPipeBuilder { processors: Vec::new(), inputs_port: Vec::new(), outputs_port: Vec::new() }
    }

    /// The simple pipe of the transforms; each transform must have its input
    /// and its output port.
    pub fn finalize(self) -> (r: Pipe)
        requires
            self.processors_view().len() == self.inputs_view().len(),
            self.processors_view().len() == self.outputs_view().len(),
        ensures
            r matches Pipe::SimplePipe { processors, inputs_port, outputs_port }
                && processors@ == self.processors_view()
                && inputs_port@ == self.inputs_view()
                && outputs_port@ == self.outputs_view(),
    {
        Pipe::SimplePipe {
            processors: self.processors,
            inputs_port: self.inputs_port,
            outputs_port: self.outputs_port,
        }
    }

    /// Adds a transform with its input and output port.
    pub fn add_transform(&mut self, input: Arc<InputPort>, output: Arc<OutputPort>, proc: ProcessorPtr)
        ensures
            final(self).processors_view() == old(self).processors_view().push(proc),
            final(self).inputs_view() == old(self).inputs_view().push(input),
            final(self).outputs_view() == old(self).outputs_view().push(output),
    {
        self.processors.push(proc);
        self.inputs_port.push(input);
        self.outputs_port.push(output);
    }
}

} // verus!
