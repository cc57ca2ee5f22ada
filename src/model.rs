use vstd::prelude::*;

use vstd::string::StrSliceExecFns;

use crate::error::ModelError;
use crate::shape::{checked_product, fits, product, resolve, Dim};
use crate::tensor::{
    copy_u32s, pack, packed, DescriptorView, ElementType, NativeTensor, TensorDescriptor,
};

verus! {

/// Where a model stands in its life: able to start a prediction, waiting for
/// the engine to finish one, or disposed.
#[derive(Clone, Copy, Debug, PartialEq, Eq, Structural)]
pub enum Phase {
    Ready,
    Running,
    Closed,
}

/// One named tensor handed to or received from the engine.
#[derive(Debug)]
pub struct Feed {
    pub name: String,
    pub tensor: NativeTensor,
}

/// A descriptor set that a loaded model may declare: at least one tensor, each
/// with a non-empty name, no two with the same name.
pub open spec fn valid_descriptors(s: Seq<DescriptorView>) -> bool {
    &&& s.len() > 0
    &&& forall|i: int| 0 <= i < s.len() ==> s[i].name.len() > 0
    &&& forall|i: int, j: int| 0 <= i < j < s.len() ==> s[i].name != s[j].name
}

pub open spec fn views(s: Seq<TensorDescriptor>) -> Seq<DescriptorView> {
    s.map_values(|d: TensorDescriptor| d@)
}

/// Whether the concrete dimensions `dims` are a shape the declared `d` allows.
pub open spec fn conforms(d: Seq<Dim>, dims: Seq<u64>) -> bool {
    &&& d.len() == dims.len()
    &&& forall|i: int| 0 <= i < d.len() ==> (#[trigger] d[i] matches Dim::Fixed(n) ==> dims[i] == n)
}

/// Whether `k` is the first feed named `n`.
pub open spec fn first_named(feeds: Seq<Feed>, n: Seq<char>, k: int) -> bool {
    &&& 0 <= k < feeds.len()
    &&& feeds[k].name@ == n
    &&& forall|j: int| 0 <= j < k ==> feeds[j].name@ != n
}

pub struct ModelView {
    pub inputs: Seq<DescriptorView>,
    pub outputs: Seq<DescriptorView>,
    pub phase: Phase,
}

impl ModelView {
    /// The tensor that `predict` feeds.
    pub open spec fn input(self) -> DescriptorView {
        self.inputs[0]
    }

    /// The tensor that `predict` reads back.
    pub open spec fn output(self) -> DescriptorView {
        self.outputs[0]
    }

    /// Whether `predict` starts a run on `len` flat values.
    pub open spec fn admits(self, len: u64) -> bool {
        &&& self.phase == Phase::Ready
        &&& fits(self.input().shape, len)
        &&& self.input().element_type == ElementType::Float32
    }

    pub open spec fn with_phase(self, p: Phase) -> ModelView {
        ModelView { inputs: self.inputs, outputs: self.outputs, phase: p }
    }
}

/// A loaded model: the tensors it declares, and the state of its one engine
/// session. The session itself is driven by the caller: `predict` hands out
/// the feeds to run, `finish_predict` takes what the engine returned.
pub struct Model {
    inputs: Vec<TensorDescriptor>,
    outputs: Vec<TensorDescriptor>,
    phase: Phase,
}

impl View for Model {
    type V = ModelView;

    closed spec fn view(&self) -> ModelView {
        ModelView { inputs: views(self.inputs@), outputs: views(self.outputs@), phase: self.phase }
    }
}

/// Checks that `descs` is a descriptor set a model may declare.
pub fn check_descriptors(descs: &Vec<TensorDescriptor>) -> (r: bool)
    ensures
        r == valid_descriptors(views(descs@)),
{
    let ghost v = views(descs@);
    if descs.len() == 0 {
        return false;
    }
    let mut i: usize = 0;
    while i < descs.len()
        invariant
            i <= descs.len(),
            v == views(descs@),
            forall|a: int| 0 <= a < i ==> v[a].name.len() > 0,
            forall|a: int, b: int| 0 <= a < b < descs.len() && a < i ==> v[a].name != v[b].name,
        decreases descs.len() - i,
    {
        assert(v[i as int] == descs@[i as int]@);
        if descs[i].name.as_str().unicode_len() == 0 {
            return false;
        }
        let mut j: usize = i + 1;
        while j < descs.len()
            invariant
                i < j <= descs.len(),
                v == views(descs@),
                forall|b: int| i < b < j ==> v[i as int].name != v[b].name,
            decreases descs.len() - j,
        {
            assert(v[i as int] == descs@[i as int]@ && v[j as int] == descs@[j as int]@);
            if descs[i].name == descs[j].name {
                return false;
            }
            j = j + 1;
        }
        i = i + 1;
    }
    true
}

fn copy_descriptors(descs: &Vec<TensorDescriptor>) -> (r: Vec<TensorDescriptor>)
    ensures
        views(r@) == views(descs@),
{
    let mut r: Vec<TensorDescriptor> = Vec::new();
    let mut i: usize = 0;
    while i < descs.len()
        invariant
            i <= descs.len(),
            views(r@) =~= views(descs@).take(i as int),
        decreases descs.len() - i,
    {
        let d = descs[i].duplicate();
        let ghost before = r@;
        r.push(d);
        proof {
            assert(r@ == before.push(d));
            assert(views(r@) =~= views(before).push(d@));
            assert(views(descs@).take(i + 1) =~= views(descs@).take(i as int).push(descs@[i as int]@));
        }
        i = i + 1;
    }
    assert(views(r@) =~= views(descs@));
    r
}

/// Checks concrete output dimensions against the declared ones and the
/// number of values that came with them.
pub fn check_output_shape(declared: &Vec<Dim>, dims: &Vec<u64>, len: u64) -> (r: bool)
    ensures
        r == (conforms(declared@, dims@) && product(dims@) == len),
{
    if declared.len() != dims.len() {
        return false;
    }
    let mut i: usize = 0;
    while i < declared.len()
        invariant
            i <= declared.len(),
            declared.len() == dims.len(),
            forall|a: int| 0 <= a < i ==> (#[trigger] declared@[a] matches Dim::Fixed(n) ==> dims@[a] == n),
        decreases declared.len() - i,
    {
        match declared[i] {
            Dim::Fixed(n) => {
                if dims[i] != n {
                    return false;
                }
            },
            Dim::Dynamic => {},
        }
        i = i + 1;
    }
    match checked_product(dims) {
        Some(p) => p == len,
        None => false,
    }
}

impl Model {
    #[verifier::type_invariant]
    closed spec fn inv(self) -> bool {
        &&& valid_descriptors(views(self.inputs@))
        &&& valid_descriptors(views(self.outputs@))
    }

    /// Takes a loaded model's declared inputs and outputs; fails with
    /// `ModelParseError` where either set is not one a model may declare.
    pub fn new(inputs: Vec<TensorDescriptor>, outputs: Vec<TensorDescriptor>) -> (r: Result<
        Model,
        ModelError,
    >)
        ensures
            r is Ok <==> (valid_descriptors(views(inputs@)) && valid_descriptors(views(outputs@))),
            r is Err ==> r == Err::<Model, ModelError>(ModelError::ModelParseError),
            r matches Ok(m) ==> m@ == (ModelView {
                inputs: views(inputs@),
                outputs: views(outputs@),
                phase: Phase::Ready,
            }),
    {
        if !check_descriptors(&inputs) || !check_descriptors(&outputs) {
            return Err(ModelError::ModelParseError);
        }
        Ok(Model { inputs, outputs, phase: Phase::Ready })
    }

    pub fn phase(&self) -> (r: Phase)
        ensures
            r == self@.phase,
    {
        self.phase
    }

    /// The declared inputs, in order; fails once the model is disposed.
    pub fn list_inputs(&self) -> (r: Result<Vec<TensorDescriptor>, ModelError>)
        ensures
            self@.phase == Phase::Closed ==> r == Err::<Vec<TensorDescriptor>, ModelError>(
                ModelError::HandleClosed,
            ),
            self@.phase != Phase::Closed ==> (r matches Ok(v) && views(v@) == self@.inputs),
    {
        if self.phase == Phase::Closed {
            return Err(ModelError::HandleClosed);
        }
        Ok(copy_descriptors(&self.inputs))
    }

    /// The declared outputs, in order; fails once the model is disposed.
    pub fn list_outputs(&self) -> (r: Result<Vec<TensorDescriptor>, ModelError>)
        ensures
            self@.phase == Phase::Closed ==> r == Err::<Vec<TensorDescriptor>, ModelError>(
                ModelError::HandleClosed,
            ),
            self@.phase != Phase::Closed ==> (r matches Ok(v) && views(v@) == self@.outputs),
    {
        if self.phase == Phase::Closed {
            return Err(ModelError::HandleClosed);
        }
        Ok(copy_descriptors(&self.outputs))
    }

    /// The declared shape of the input that `predict` feeds.
    pub fn input_shape(&self) -> (r: Vec<Dim>)
        ensures
            r@ == self@.input().shape,
    {
        proof {
            use_type_invariant(self);
        }
        crate::tensor::copy_dims(&self.inputs[0].shape)
    }

    /// The declared shape of the output that `predict` reads back.
    pub fn output_shape(&self) -> (r: Vec<Dim>)
        ensures
            r@ == self@.output().shape,
    {
        proof {
            use_type_invariant(self);
        }
        crate::tensor::copy_dims(&self.outputs[0].shape)
    }

    /// Closes the model. Returns whether the engine session is to be released
    /// now: true on the first call, false on every later one, which changes
    /// nothing.
    pub fn dispose(&mut self) -> (r: bool)
        ensures
            r == (old(self)@.phase != Phase::Closed),
            final(self)@ == old(self)@.with_phase(Phase::Closed),
    {
        proof {
            use_type_invariant(&*self);
        }
        let was_open = self.phase != Phase::Closed;
        self.phase = Phase::Closed;
        was_open
    }

    /// Starts a prediction on the flat `input`, given as the bit patterns of
    /// 32-bit floats. On success the model waits for the engine, and the
    /// result is the feeds to run: one tensor, under the input's name.
    /// Every failure leaves the model as it was.
    pub fn predict(&mut self, input: &Vec<u32>) -> (r: Result<Vec<Feed>, ModelError>)
        ensures
            r is Ok <==> old(self)@.admits(input@.len() as u64),
            r is Ok ==> final(self)@ == old(self)@.with_phase(Phase::Running),
            r is Err ==> final(self)@ == old(self)@,
            old(self)@.phase == Phase::Closed ==> r == Err::<Vec<Feed>, ModelError>(
                ModelError::HandleClosed,
            ),
            old(self)@.phase == Phase::Running ==> r == Err::<Vec<Feed>, ModelError>(
                ModelError::SessionBusy,
            ),
            old(self)@.phase == Phase::Ready && !fits(old(self)@.input().shape, input@.len() as u64)
                ==> (match r {
                Err(ModelError::InputSizeMismatch { expected, actual }) => expected@ == resolve(
                    old(self)@.input().shape,
                    input@.len() as u64,
                ) && actual == input@.len() as u64,
                _ => false,
            }),
            old(self)@.phase == Phase::Ready && fits(old(self)@.input().shape, input@.len() as u64)
                && old(self)@.input().element_type != ElementType::Float32 ==> r == Err::<
                Vec<Feed>,
                ModelError,
            >(
                ModelError::TypeMismatch {
                    expected: old(self)@.input().element_type,
                    actual: ElementType::Float32,
                },
            ),
            r matches Ok(feeds) ==> feeds@.len() == 1 && feeds@[0].name@ == old(self)@.input().name
                && feeds@[0].tensor@ == packed(
                input@,
                ElementType::Float32,
                old(self)@.input().shape,
            ),
    {
        proof {
            use_type_invariant(&*self);
        }
        if self.phase == Phase::Closed {
            return Err(ModelError::HandleClosed);
        }
        if self.phase == Phase::Running {
            return Err(ModelError::SessionBusy);
        }
        let desc = &self.inputs[0];
        let len = input.len() as u64;
        let (ok, shape) = crate::shape::check_fits(&desc.shape, len);
        if !ok {
            return Err(ModelError::InputSizeMismatch { expected: shape, actual: len });
        }
        let tensor = match pack(input, ElementType::Float32, desc) {
            Ok(t) => t,
            Err(e) => {
                return Err(e);
            },
        };
        let feed = Feed { name: desc.name.clone(), tensor };
        self.phase = Phase::Running;
        let mut feeds: Vec<Feed> = Vec::new();
        feeds.push(feed);
        Ok(feeds)
    }

    /// Ends the prediction that `predict` started, given what the engine
    /// returned for its feeds. An engine error comes back unchanged; else the
    /// output tensor is looked up by name, checked against its declaration,
    /// and copied out. The model is ready for the next prediction afterwards,
    /// unless it was disposed meanwhile.
    pub fn finish_predict(&mut self, outcome: Result<Vec<Feed>, ModelError>) -> (r: Result<
        Vec<u32>,
        ModelError,
    >)
        ensures
            old(self)@.phase == Phase::Closed ==> r == Err::<Vec<u32>, ModelError>(
                ModelError::HandleClosed,
            ) && final(self)@ == old(self)@,
            old(self)@.phase != Phase::Closed ==> final(self)@ == old(self)@.with_phase(
                Phase::Ready,
            ),
            old(self)@.phase != Phase::Closed ==> match outcome {
                Err(e) => r == Err::<Vec<u32>, ModelError>(e),
                Ok(feeds) => {
                    &&& (forall|k: int| !first_named(feeds@, old(self)@.output().name, k)) ==> (
                    match r {
                        Err(ModelError::OutputMissing { name }) => name@ == old(
                            self,
                        )@.output().name,
                        _ => false,
                    })
                    &&& forall|k: int|
                        #![trigger feeds@[k]]
                        first_named(feeds@, old(self)@.output().name, k) ==> {
                            let t = feeds@[k].tensor;
                            let out = old(self)@.output();
                            &&& t.element_type != out.element_type ==> r == Err::<
                                Vec<u32>,
                                ModelError,
                            >(
                                ModelError::TypeMismatch {
                                    expected: out.element_type,
                                    actual: t.element_type,
                                },
                            )
                            &&& t.element_type == out.element_type && !(conforms(
                                out.shape,
                                t.dims@,
                            ) && product(t.dims@) == t.data@.len()) ==> (match r {
                                Err(ModelError::ShapeMismatch { expected, actual }) => expected@
                                    == t.dims@ && actual == t.data@.len() as u64,
                                _ => false,
                            })
                            &&& t.element_type == out.element_type && conforms(
                                out.shape,
                                t.dims@,
                            ) && product(t.dims@) == t.data@.len() ==> (r matches Ok(v) && v@
                                == t.data@)
                        }
                },
            },
            r matches Ok(v) ==> exists|dims: Seq<u64>|
                conforms(old(self)@.output().shape, dims) && product(dims) == v@.len(),
    {
        proof {
            use_type_invariant(&*self);
        }
        if self.phase == Phase::Closed {
            return Err(ModelError::HandleClosed);
        }
        self.phase = Phase::Ready;
        let feeds = match outcome {
            Err(e) => {
                return Err(e);
            },
            Ok(feeds) => feeds,
        };
        let out = &self.outputs[0];
        assert(out@ == old(self)@.output());
        let mut k: usize = 0;
        while k < feeds.len()
            invariant
                k <= feeds.len(),
                forall|j: int| 0 <= j < k ==> feeds@[j].name@ != out.name@,
            ensures
                k <= feeds.len(),
                forall|j: int| 0 <= j < k ==> feeds@[j].name@ != out.name@,
                k < feeds.len() ==> feeds@[k as int].name@ == out.name@,
            decreases feeds.len() - k,
        {
            if feeds[k].name == out.name {
                break;
            }
            k = k + 1;
        }
        if k == feeds.len() {
            return Err(ModelError::OutputMissing { name: out.name.clone() });
        }
        assert(first_named(feeds@, out.name@, k as int));
        proof {
            assert forall|j: int| #![trigger feeds@[j]] first_named(feeds@, out.name@, j) implies j
                == k by {
                if j < k {
                } else if j > k {
                    assert(feeds@[k as int].name@ != out.name@);
                }
            }
        }
        let t = &feeds[k].tensor;
        if t.element_type != out.element_type {
            return Err(
                ModelError::TypeMismatch { expected: out.element_type, actual: t.element_type },
            );
        }
        let len = t.data.len() as u64;
        if !check_output_shape(&out.shape, &t.dims, len) {
            return Err(ModelError::ShapeMismatch { expected: crate::tensor::copy_u64s(&t.dims), actual: len });
        }
        let buffer = crate::tensor::unpack(t);
        Ok(buffer.data)
    }

    /// Admits a run of arbitrary `feeds` on the session: fails with
    /// `HandleClosed` once disposed, with `SessionBusy` while a run is
    /// outstanding, and as `check_feeds` says where a key is unknown or an
    /// input has no feed. On success the session waits for the engine.
    pub fn begin_run(&mut self, feeds: &Vec<Feed>) -> (r: Result<(), ModelError>)
        ensures
            old(self)@.phase == Phase::Closed ==> r == Err::<(), ModelError>(
                ModelError::HandleClosed,
            ),
            old(self)@.phase == Phase::Running ==> r == Err::<(), ModelError>(
                ModelError::SessionBusy,
            ),
            old(self)@.phase == Phase::Ready ==> (r matches Err(e) ==> crate::session::feed_error(
                old(self)@.inputs,
                feeds@,
                e,
            )),
            r is Ok <==> old(self)@.phase == Phase::Ready && crate::session::feeds_match(
                old(self)@.inputs,
                feeds@,
            ),
            r is Ok ==> final(self)@ == old(self)@.with_phase(Phase::Running),
            r is Err ==> final(self)@ == old(self)@,
    {
        proof {
            use_type_invariant(&*self);
        }
        if self.phase == Phase::Closed {
            return Err(ModelError::HandleClosed);
        }
        if self.phase == Phase::Running {
            return Err(ModelError::SessionBusy);
        }
        match crate::session::check_feeds(&self.inputs, feeds) {
            Ok(()) => {
                self.phase = Phase::Running;
                Ok(())
            },
            Err(e) => Err(e),
        }
    }

    /// Records that the engine has finished the outstanding run.
    pub fn end_run(&mut self)
        ensures
            old(self)@.phase == Phase::Closed ==> final(self)@ == old(self)@,
            old(self)@.phase != Phase::Closed ==> final(self)@ == old(self)@.with_phase(
                Phase::Ready,
            ),
    {
        proof {
            use_type_invariant(&*self);
        }
        if self.phase != Phase::Closed {
            self.phase = Phase::Ready;
        }
    }
}

/// A model that has just been loaded from valid descriptor sets is open, and
/// lists a non-empty sequence of inputs and of outputs; since listing reads the
/// model alone, every listing before the model changes gives the same sequences.
pub proof fn law_fresh_model_lists(
    inputs: Seq<TensorDescriptor>,
    outputs: Seq<TensorDescriptor>,
    m: ModelView,
)
    requires
        valid_descriptors(views(inputs)),
        valid_descriptors(views(outputs)),
        m == (ModelView { inputs: views(inputs), outputs: views(outputs), phase: Phase::Ready }),
    ensures
        m.phase != Phase::Closed,
        m.inputs.len() > 0,
        m.outputs.len() > 0,
        m.inputs == views(inputs),
        m.outputs == views(outputs),
{
}

/// An input that `predict` admits fills the input shape exactly, and the
/// tensor handed to the engine holds as many elements as its shape counts.
pub proof fn law_admitted_input_fills_shape(m: ModelView, input: Seq<u32>)
    requires
        input.len() <= u64::MAX,
        m.admits(input.len() as u64),
    ensures
        product(resolve(m.input().shape, input.len() as u64)) == input.len(),
        product(packed(input, ElementType::Float32, m.input().shape).shape) == packed(
            input,
            ElementType::Float32,
            m.input().shape,
        ).data.len(),
{
}

/// An input whose length does not fill the input shape is refused, and since
/// a refusal leaves the model as it was, an input that fits is admitted next.
pub proof fn law_size_mismatch_keeps_model_usable(m: ModelView, bad: u64, good: u64)
    requires
        m.phase == Phase::Ready,
        !fits(m.input().shape, bad),
        m.admits(good),
    ensures
        !m.admits(bad),
        m.admits(good),
{
}

/// Disposing a disposed model changes nothing, and a disposed model admits
/// no prediction.
pub proof fn law_dispose_is_final(m: ModelView, len: u64)
    ensures
        m.with_phase(Phase::Closed).with_phase(Phase::Closed) == m.with_phase(Phase::Closed),
        !m.with_phase(Phase::Closed).admits(len),
{
}

/// While a prediction is outstanding no other one is admitted: a second
/// `predict` before `finish_predict` fails with `SessionBusy`, whatever its input.
pub proof fn law_one_prediction_at_a_time(m: ModelView, first: u64, second: u64)
    requires
        m.admits(first),
    ensures
        !m.with_phase(Phase::Running).admits(second),
        m.with_phase(Phase::Running).with_phase(Phase::Ready).admits(first),
{
}

} // verus!
