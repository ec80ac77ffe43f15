//! The search for an adapter that can drive a surface.
//!
//! Adapters may report that they can present to a surface and still fail when
//! the surface is configured, so each is put to the test: its capabilities are
//! queried, a device is created, and the surface is configured. The first
//! adapter, in order of rank, that passes is selected.
//!
//! [`AdapterSelection`] decides what to do next; its user does it and reports
//! what came of it.

use crate::adapter::{is_ranking, law_ranking_is_unique, priorities, rank_adapters};
use crate::adapter::{summaries, tried_before};
use crate::adapter::{AdapterSummary, CompositorGpuHint, Priority};
use crate::error::ContextError;
use vstd::prelude::*;

verus! {

/// `wgpu::TextureFormat`: how the pixels of a texture are laid out.
#[verifier::external_type_specification]
#[verifier::external_body]
pub struct ExTextureFormat(wgpu::TextureFormat);

/// `wgpu::CompositeAlphaMode`: how a surface is blended with what is behind it.
#[verifier::external_type_specification]
#[verifier::external_body]
pub struct ExCompositeAlphaMode(wgpu::CompositeAlphaMode);

/// What an adapter can do with a surface, the preferred choices first.
pub struct SurfaceCapabilities {
    pub formats: Vec<wgpu::TextureFormat>,
    pub alpha_modes: Vec<wgpu::CompositeAlphaMode>,
}

/// When a frame is shown.
#[derive(Clone, Copy, Debug, PartialEq, Eq, Structural)]
pub enum PresentMode {
    AutoVsync,
    AutoNoVsync,
    Fifo,
    FifoRelaxed,
    Immediate,
    Mailbox,
}

/// Which errors are watched for.
#[derive(Clone, Copy, Debug, PartialEq, Eq, Structural)]
pub enum ErrorFilter {
    OutOfMemory,
    Validation,
    Internal,
}

/// The configuration with which a surface is tested, and the errors that make
/// the test fail.
pub struct SurfaceTest {
    /// The bits of the `wgpu::TextureUsages`.
    pub usage: u32,
    pub format: wgpu::TextureFormat,
    pub width: u32,
    pub height: u32,
    pub present_mode: PresentMode,
    pub desired_maximum_frame_latency: u32,
    pub alpha_mode: wgpu::CompositeAlphaMode,
    pub view_formats: Vec<wgpu::TextureFormat>,
    pub errors: ErrorFilter,
}

/// What a test of a surface says.
pub struct TestView {
    pub usage: u32,
    pub format: wgpu::TextureFormat,
    pub width: u32,
    pub height: u32,
    pub present_mode: PresentMode,
    pub desired_maximum_frame_latency: u32,
    pub alpha_mode: wgpu::CompositeAlphaMode,
    pub view_formats: Seq<wgpu::TextureFormat>,
    pub errors: ErrorFilter,
}

impl View for SurfaceTest {
    type V = TestView;

    open spec fn view(&self) -> TestView {
        TestView {
            usage: self.usage,
            format: self.format,
            width: self.width,
            height: self.height,
            present_mode: self.present_mode,
            desired_maximum_frame_latency: self.desired_maximum_frame_latency,
            alpha_mode: self.alpha_mode,
            view_formats: self.view_formats@,
            errors: self.errors,
        }
    }
}

/// `wgpu::TextureUsages::RENDER_ATTACHMENT` is bit 4.
#[verifier::external_body]
fn render_attachment() -> (bits: u32)
    ensures
        bits == 0x10,
{
    wgpu::TextureUsages::RENDER_ATTACHMENT.bits()
}

/// The test for a surface: a small render target in the preferred format and
/// alpha mode, which must not raise a validation error. There is none where the
/// adapter offers no format or no alpha mode.
pub open spec fn test_for(caps: SurfaceCapabilities) -> Result<TestView, ContextError> {
    if caps.formats@.len() == 0 {
        Err(ContextError::NoSurfaceFormats)
    } else if caps.alpha_modes@.len() == 0 {
        Err(ContextError::NoAlphaModes)
    } else {
        Ok(
            TestView {
                usage: 0x10,
                format: caps.formats@[0],
                width: 64,
                height: 64,
                present_mode: PresentMode::Fifo,
                desired_maximum_frame_latency: 2,
                alpha_mode: caps.alpha_modes@[0],
                view_formats: Seq::empty(),
                errors: ErrorFilter::Validation,
            },
        )
    }
}

/// The test for a surface with these capabilities.
pub fn surface_test(caps: &SurfaceCapabilities) -> (test: Result<SurfaceTest, ContextError>)
    ensures
        match test {
            Ok(test) => test_for(*caps) == Ok::<TestView, ContextError>(test@),
            Err(error) => test_for(*caps) == Err::<TestView, ContextError>(error),
        },
{
    if caps.formats.len() == 0 {
        return Err(ContextError::NoSurfaceFormats);
    }
    if caps.alpha_modes.len() == 0 {
        return Err(ContextError::NoAlphaModes);
    }
    Ok(
        SurfaceTest {
            usage: render_attachment(),
            format: caps.formats[0],
            width: 64,
            height: 64,
            present_mode: PresentMode::Fifo,
            desired_maximum_frame_latency: 2,
            alpha_mode: caps.alpha_modes[0],
            view_formats: Vec::new(),
            errors: ErrorFilter::Validation,
        },
    )
}

/// How far the adapter at hand has come.
pub enum Stage<D> {
    /// Its capabilities are to be queried.
    Capabilities,
    /// A device is to be created.
    Device(TestView),
    /// The surface is to be configured with the device.
    Surface(TestView, D),
    /// It has passed.
    Selected(D),
    /// Every adapter has failed.
    Exhausted,
}

enum Progress<D> {
    Capabilities,
    Device(SurfaceTest),
    Surface(SurfaceTest, D),
    Selected(D),
    Exhausted,
}

impl<D> Progress<D> {
    spec fn stage(self) -> Stage<D> {
        match self {
            Progress::Capabilities => Stage::Capabilities,
            Progress::Device(test) => Stage::Device(test@),
            Progress::Surface(test, device) => Stage::Surface(test@, device),
            Progress::Selected(device) => Stage::Selected(device),
            Progress::Exhausted => Stage::Exhausted,
        }
    }
}

/// What the user of a selection has to do next.
pub enum Request<'a, D> {
    /// Query what the adapter can do with the surface.
    QueryCapabilities { adapter: usize },
    /// Create a device on the adapter.
    CreateDevice { adapter: usize },
    /// Configure the surface with the device and watch for errors.
    ConfigureSurface { adapter: usize, test: &'a SurfaceTest, device: &'a D },
    /// Nothing: the selection has come to an end.
    Finish,
}

/// What a request says.
pub enum RequestView<D> {
    QueryCapabilities { adapter: usize },
    CreateDevice { adapter: usize },
    ConfigureSurface { adapter: usize, test: TestView, device: D },
    Finish,
}

impl<'a, D> View for Request<'a, D> {
    type V = RequestView<D>;

    open spec fn view(&self) -> RequestView<D> {
        match *self {
            Request::QueryCapabilities { adapter } => RequestView::QueryCapabilities { adapter },
            Request::CreateDevice { adapter } => RequestView::CreateDevice { adapter },
            Request::ConfigureSurface { adapter, test, device } => RequestView::ConfigureSurface {
                adapter,
                test: test@,
                device: *device,
            },
            Request::Finish => RequestView::Finish,
        }
    }
}

/// What came of a request.
pub enum Reply<D> {
    Capabilities(SurfaceCapabilities),
    Device(Result<D, ContextError>),
    /// The error that configuring the surface raised, if any.
    Surface(Option<String>),
}

/// The state of a selection.
pub struct SelectionView<D> {
    /// The adapters in the order in which they are tried.
    pub order: Seq<usize>,
    /// The place in the order of the adapter at hand.
    pub place: int,
    pub stage: Stage<D>,
}

impl<D> SelectionView<D> {
    /// Whether the selection has come to an end.
    pub open spec fn is_finished(self) -> bool {
        self.stage is Selected || self.stage is Exhausted
    }

    /// There is an adapter at hand unless every adapter has failed.
    pub open spec fn well_formed(self) -> bool {
        if self.stage is Exhausted {
            self.place == self.order.len()
        } else {
            0 <= self.place < self.order.len()
        }
    }

    /// The selection with the adapter at hand given up.
    pub open spec fn given_up(self) -> Self {
        SelectionView {
            order: self.order,
            place: self.place + 1,
            stage: if self.place + 1 < self.order.len() {
                Stage::Capabilities
            } else {
                Stage::Exhausted
            },
        }
    }

    /// The selection in another stage with the same adapter at hand.
    pub open spec fn at_stage(self, stage: Stage<D>) -> Self {
        SelectionView { order: self.order, place: self.place, stage }
    }

    /// Whether a reply answers what is to be done next.
    pub open spec fn expects(self, reply: Reply<D>) -> bool {
        ||| self.stage is Capabilities && reply is Capabilities
        ||| self.stage is Device && reply is Device
        ||| self.stage is Surface && reply is Surface
    }

    /// The selection after a reply. One that was not asked for changes nothing.
    pub open spec fn after(self, reply: Reply<D>) -> Self {
        match (self.stage, reply) {
            (Stage::Capabilities, Reply::Capabilities(caps)) => match test_for(caps) {
                Ok(test) => self.at_stage(Stage::Device(test)),
                Err(_) => self.given_up(),
            },
            (Stage::Device(test), Reply::Device(result)) => match result {
                Ok(device) => self.at_stage(Stage::Surface(test, device)),
                Err(_) => self.given_up(),
            },
            (Stage::Surface(_, device), Reply::Surface(error)) => match error {
                None => self.at_stage(Stage::Selected(device)),
                Some(_) => self.given_up(),
            },
            _ => self,
        }
    }

    /// Why a reply makes the adapter at hand fail, if it does.
    pub open spec fn failure(self, reply: Reply<D>) -> Option<ContextError> {
        match (self.stage, reply) {
            (Stage::Capabilities, Reply::Capabilities(caps)) => match test_for(caps) {
                Ok(_) => None,
                Err(error) => Some(error),
            },
            (Stage::Device(_), Reply::Device(Err(error))) => Some(error),
            (Stage::Surface(_, _), Reply::Surface(Some(reason))) => Some(
                ContextError::SurfaceConfiguration(reason),
            ),
            _ => None,
        }
    }

    /// What is to be done next.
    pub open spec fn request(self) -> RequestView<D> {
        let adapter = self.order[self.place];
        match self.stage {
            Stage::Capabilities => RequestView::QueryCapabilities { adapter },
            Stage::Device(_) => RequestView::CreateDevice { adapter },
            Stage::Surface(test, device) => RequestView::ConfigureSurface { adapter, test, device },
            _ => RequestView::Finish,
        }
    }
}

/// A search for an adapter that can drive a surface. `D` is what creating a
/// device gives.
pub struct AdapterSelection<D> {
    order: Vec<usize>,
    place: usize,
    progress: Progress<D>,
}

impl<D> View for AdapterSelection<D> {
    type V = SelectionView<D>;

    closed spec fn view(&self) -> SelectionView<D> {
        SelectionView { order: self.order@, place: self.place as int, stage: self.progress.stage() }
    }
}

impl<D> AdapterSelection<D> {
    /// There is an adapter at hand unless every adapter has failed.
    #[verifier::type_invariant]
    spec fn well_formed(&self) -> bool {
        self@.well_formed()
    }

    /// Begins with the given adapters, the best of them first.
    pub fn start(
        adapters: &Vec<wgpu::Adapter>,
        device_id: Option<u32>,
        compositor_gpu: Option<CompositorGpuHint>,
    ) -> (selection: Result<Self, ContextError>)
        ensures
            match selection {
                Ok(selection) => {
                    &&& adapters@.len() > 0
                    &&& is_ranking(
                        selection@.order,
                        priorities(summaries(adapters@), device_id, compositor_gpu),
                    )
                    &&& selection@.place == 0
                    &&& selection@.stage == Stage::<D>::Capabilities
                },
                Err(error) => adapters@.len() == 0 && error == ContextError::NoAdapters,
            },
    {
        let mut described: Vec<AdapterSummary> = Vec::new();
        let count: usize = adapters.len();
        let mut next: usize = 0;
        while next < count
            invariant
                count == adapters@.len(),
                next <= count,
                described@ == summaries(adapters@).take(next as int),
            decreases count - next,
        {
            described.push(AdapterSummary::of(&adapters[next]));
            next += 1;
        }
        assert(described@ == summaries(adapters@));
        Self::start_described(&described, device_id, compositor_gpu)
    }

    /// Begins with the adapters that the list describes, the best of them first.
    pub fn start_described(
        adapters: &Vec<AdapterSummary>,
        device_id: Option<u32>,
        compositor_gpu: Option<CompositorGpuHint>,
    ) -> (selection: Result<Self, ContextError>)
        ensures
            match selection {
                Ok(selection) => {
                    &&& adapters@.len() > 0
                    &&& is_ranking(
                        selection@.order,
                        priorities(adapters@, device_id, compositor_gpu),
                    )
                    &&& selection@.place == 0
                    &&& selection@.stage == Stage::<D>::Capabilities
                },
                Err(error) => adapters@.len() == 0 && error == ContextError::NoAdapters,
            },
    {
        if adapters.len() == 0 {
            return Err(ContextError::NoAdapters);
        }
        let order: Vec<usize> = rank_adapters(adapters, device_id, compositor_gpu);
        Ok(AdapterSelection { order, place: 0, progress: Progress::Capabilities })
    }

    /// The adapters in the order in which they are tried.
    pub fn order(&self) -> (order: &Vec<usize>)
        ensures
            order@ == self@.order,
    {
        &self.order
    }

    /// What is to be done next.
    pub fn request(&self) -> (request: Request<'_, D>)
        ensures
            request@ == self@.request(),
    {
        proof {
            use_type_invariant(self);
        }
        match &self.progress {
            Progress::Capabilities => Request::QueryCapabilities { adapter: self.order[self.place] },
            Progress::Device(_) => Request::CreateDevice { adapter: self.order[self.place] },
            Progress::Surface(test, device) => Request::ConfigureSurface {
                adapter: self.order[self.place],
                test,
                device,
            },
            _ => Request::Finish,
        }
    }

    fn give_up(order: Vec<usize>, place: usize) -> (selection: Self)
        requires
            place < order@.len(),
        ensures
            selection@.order == order@,
            selection@.place == place + 1,
            selection@.stage == if place + 1 < order@.len() {
                Stage::<D>::Capabilities
            } else {
                Stage::<D>::Exhausted
            },
    {
        let count: usize = order.len();
        let next: usize = place + 1;
        if next < count {
            AdapterSelection { order, place: next, progress: Progress::Capabilities }
        } else {
            AdapterSelection { order, place: next, progress: Progress::Exhausted }
        }
    }

    /// The selection after a reply, and why the adapter at hand failed if it did.
    pub fn advance(self, reply: Reply<D>) -> (r: (Self, Option<ContextError>))
        ensures
            r.0@ == self@.after(reply),
            r.1 == self@.failure(reply),
    {
        proof {
            use_type_invariant(&self);
        }
        let AdapterSelection { order, place, progress } = self;
        match (progress, reply) {
            (Progress::Capabilities, Reply::Capabilities(caps)) => match surface_test(&caps) {
                Ok(test) => (AdapterSelection { order, place, progress: Progress::Device(test) }, None),
                Err(error) => (Self::give_up(order, place), Some(error)),
            },
            (Progress::Device(test), Reply::Device(result)) => match result {
                Ok(device) => (
                    AdapterSelection { order, place, progress: Progress::Surface(test, device) },
                    None,
                ),
                Err(error) => (Self::give_up(order, place), Some(error)),
            },
            (Progress::Surface(_, device), Reply::Surface(error)) => match error {
                None => (AdapterSelection { order, place, progress: Progress::Selected(device) }, None),
                Some(reason) => (
                    Self::give_up(order, place),
                    Some(ContextError::SurfaceConfiguration(reason)),
                ),
            },
            (progress, _) => (AdapterSelection { order, place, progress }, None),
        }
    }

    /// How the selection ended: with an adapter and its device, or with the
    /// error that there is none. `None` if it has not ended.
    pub fn finish(self) -> (end: Option<Result<(usize, D), ContextError>>)
        ensures
            end == match self@.stage {
                Stage::Selected(device) => Some(Ok((self@.order[self@.place], device))),
                Stage::Exhausted => Some(Err(ContextError::NoUsableAdapter)),
                _ => None,
            },
    {
        proof {
            use_type_invariant(&self);
        }
        let AdapterSelection { order, place, progress } = self;
        match progress {
            Progress::Selected(device) => Some(Ok((order[place], device))),
            Progress::Exhausted => Some(Err(ContextError::NoUsableAdapter)),
            _ => None,
        }
    }
}

/// How an adapter would answer every request.
pub struct Trial<D> {
    pub capabilities: SurfaceCapabilities,
    pub device: Result<D, ContextError>,
    pub surface: Option<String>,
}

impl<D> Trial<D> {
    /// Whether the adapter passes: it offers a format and an alpha mode, creates
    /// the device and configures the surface without an error.
    pub open spec fn passes(self) -> bool {
        &&& self.capabilities.formats@.len() > 0
        &&& self.capabilities.alpha_modes@.len() > 0
        &&& self.device is Ok
        &&& self.surface is None
    }
}

impl<D> RequestView<D> {
    /// The adapter that a request is about, if it is about one.
    pub open spec fn adapter(self) -> Option<usize> {
        match self {
            RequestView::QueryCapabilities { adapter } => Some(adapter),
            RequestView::CreateDevice { adapter } => Some(adapter),
            RequestView::ConfigureSurface { adapter, .. } => Some(adapter),
            RequestView::Finish => None,
        }
    }

    /// Whether a reply is of the kind that answers the request.
    pub open spec fn is_answered_by(self, reply: Reply<D>) -> bool {
        match self {
            RequestView::QueryCapabilities { .. } => reply is Capabilities,
            RequestView::CreateDevice { .. } => reply is Device,
            RequestView::ConfigureSurface { .. } => reply is Surface,
            RequestView::Finish => false,
        }
    }

    /// The reply to the request, if the adapter that it is about answers as
    /// `trials` says.
    pub open spec fn reply_from(self, trials: spec_fn(usize) -> Trial<D>) -> Reply<D> {
        match self {
            RequestView::QueryCapabilities { adapter } => Reply::Capabilities(
                trials(adapter).capabilities,
            ),
            RequestView::CreateDevice { adapter } => Reply::Device(trials(adapter).device),
            RequestView::ConfigureSurface { adapter, .. } => Reply::Surface(
                trials(adapter).surface,
            ),
            RequestView::Finish => Reply::Surface(None),
        }
    }
}

impl<D> SelectionView<D> {
    /// The reply to what is to be done next, if adapters answer as `trials` says.
    pub open spec fn reply_from(self, trials: spec_fn(usize) -> Trial<D>) -> Reply<D> {
        self.request().reply_from(trials)
    }

    /// The selection after a number of requests, if adapters answer as `trials`
    /// says.
    pub open spec fn driven(self, trials: spec_fn(usize) -> Trial<D>, requests: nat) -> Self
        decreases requests,
    {
        if requests == 0 {
            self
        } else {
            self.after(self.reply_from(trials)).driven(trials, (requests - 1) as nat)
        }
    }

    /// How many requests are left at most.
    pub open spec fn requests_left(self) -> int {
        let at_hand = match self.stage {
            Stage::Capabilities => 3int,
            Stage::Device(_) => 2int,
            Stage::Surface(_, _) => 1int,
            _ => 0int,
        };
        if self.is_finished() {
            0
        } else {
            3 * (self.order.len() - self.place - 1) + at_hand
        }
    }
}

/// How a selection ends if the adapters from `place` on are all that is left:
/// with the first of them that passes, or with none.
pub open spec fn end_from<D>(
    order: Seq<usize>,
    trials: spec_fn(usize) -> Trial<D>,
    place: int,
) -> SelectionView<D>
    decreases order.len() - place,
{
    if place >= order.len() {
        SelectionView { order, place: order.len() as int, stage: Stage::Exhausted }
    } else if trials(order[place]).passes() {
        SelectionView { order, place, stage: Stage::Selected(trials(order[place]).device->Ok_0) }
    } else {
        end_from(order, trials, place + 1)
    }
}

/// A selection that has come to an end stays as it is.
pub proof fn law_end_is_final<D>(selection: SelectionView<D>, reply: Reply<D>)
    requires
        selection.is_finished(),
    ensures
        selection.after(reply) == selection,
        selection.failure(reply) is None,
{
}

/// Every reply keeps the selection well formed and the order as it was.
pub proof fn law_replies_keep_the_order<D>(selection: SelectionView<D>, reply: Reply<D>)
    requires
        selection.well_formed(),
    ensures
        selection.after(reply).well_formed(),
        selection.after(reply).order == selection.order,
{
}

/// Every reply that was asked for brings the end nearer, so that there are at
/// most three requests for each adapter.
pub proof fn law_replies_make_progress<D>(selection: SelectionView<D>, reply: Reply<D>)
    requires
        selection.well_formed(),
        selection.expects(reply),
    ensures
        0 <= selection.after(reply).requests_left() < selection.requests_left(),
{
}

/// The adapter at hand is given up exactly when a reply makes it fail, and then
/// it is never at hand again.
pub proof fn law_failure_moves_on<D>(selection: SelectionView<D>, reply: Reply<D>)
    requires
        selection.well_formed(),
    ensures
        selection.failure(reply) is Some ==> selection.after(reply).place == selection.place + 1,
        selection.failure(reply) is None ==> selection.after(reply).place == selection.place,
{
}

/// A selection tries the adapters in the order of their ranks, and begins by
/// asking the best of them for its capabilities. It cannot begin only if there is
/// no adapter.
pub proof fn law_selection_begins_with_the_best<D>(
    infos: Vec<AdapterSummary>,
    device_id: Option<u32>,
    compositor_gpu: Option<CompositorGpuHint>,
    order: Vec<usize>,
    started: Result<AdapterSelection<D>, ContextError>,
)
    requires
        call_ensures(rank_adapters, (&infos, device_id, compositor_gpu), order),
        call_ensures(
            AdapterSelection::<D>::start_described,
            (&infos, device_id, compositor_gpu),
            started,
        ),
    ensures
        match started {
            Ok(selection) => {
                &&& infos@.len() > 0
                &&& selection@.order == order@
                &&& selection@.request() == (RequestView::<D>::QueryCapabilities {
                    adapter: order@.first(),
                })
                &&& selection@.requests_left() == 3 * infos@.len()
            },
            Err(error) => infos@.len() == 0 && error is NoAdapters,
        },
{
    if let Ok(selection) = started {
        law_ranking_is_unique(
            selection@.order,
            order@,
            priorities(infos@, device_id, compositor_gpu),
        );
    }
}

/// Beginning with adapters is beginning with what they say of themselves.
pub proof fn law_adapters_count_by_their_descriptions<D>(
    adapters: Vec<wgpu::Adapter>,
    infos: Vec<AdapterSummary>,
    device_id: Option<u32>,
    compositor_gpu: Option<CompositorGpuHint>,
    started: Result<AdapterSelection<D>, ContextError>,
    described: Result<AdapterSelection<D>, ContextError>,
)
    requires
        infos@.len() == adapters@.len(),
        forall|i: int|
            0 <= i < infos@.len() ==> call_ensures(
                AdapterSummary::of,
                (&adapters@[i],),
                #[trigger] infos@[i],
            ),
        call_ensures(AdapterSelection::<D>::start, (&adapters, device_id, compositor_gpu), started),
        call_ensures(
            AdapterSelection::<D>::start_described,
            (&infos, device_id, compositor_gpu),
            described,
        ),
    ensures
        match (started, described) {
            (Ok(first), Ok(second)) => first@ == second@,
            (Err(first), Err(second)) => first == second,
            _ => false,
        },
{
    assert(summaries(adapters@) =~= infos@);
    if started is Ok && described is Ok {
        law_ranking_is_unique(
            started->Ok_0@.order,
            described->Ok_0@.order,
            priorities(infos@, device_id, compositor_gpu),
        );
    }
}

/// As long as the selection has not come to an end, whatever is requested is
/// requested of the adapter at hand; then nothing is.
pub proof fn law_requests_are_about_the_adapter_at_hand<D>(
    selection: AdapterSelection<D>,
    request: Request<'_, D>,
)
    requires
        call_ensures(AdapterSelection::<D>::request, (&selection,), request),
    ensures
        request@.adapter() == if selection@.is_finished() {
            None
        } else {
            Some(selection@.order[selection@.place])
        },
        request is Finish <==> selection@.is_finished(),
{
}

/// A reply is taken exactly if it answers the request. Any other changes nothing
/// and is no failure.
pub proof fn law_only_answers_are_taken<D>(selection: SelectionView<D>, reply: Reply<D>)
    requires
        selection.well_formed(),
    ensures
        selection.request().is_answered_by(reply) == selection.expects(reply),
        selection.request().is_answered_by(reply) <==> selection.after(reply) != selection,
        !selection.request().is_answered_by(reply) ==> selection.failure(reply) is None,
{
    lemma_answers_change_the_selection(selection, reply);
}

proof fn lemma_answers_change_the_selection<D>(selection: SelectionView<D>, reply: Reply<D>)
    requires
        selection.well_formed(),
    ensures
        selection.expects(reply) ==> selection.after(reply) != selection,
{
    if selection.expects(reply) {
        law_replies_make_progress(selection, reply);
    }
}

/// Unless a reply makes the adapter at hand fail, the next request is about the
/// same adapter. If it does, the next adapter of the order is asked for its
/// capabilities.
pub proof fn law_requests_stay_with_an_adapter<D>(selection: SelectionView<D>, reply: Reply<D>)
    requires
        selection.well_formed(),
        !selection.after(reply).is_finished(),
    ensures
        selection.failure(reply) is None ==> selection.after(reply).request().adapter()
            == selection.request().adapter(),
        selection.failure(reply) is Some ==> selection.after(reply).request()
            == (RequestView::<D>::QueryCapabilities { adapter: selection.order[selection.place + 1] }),
{
}

/// An adapter is asked for its capabilities, then for a device, and then the
/// surface is configured with that device, in the preferred format and alpha
/// mode; what it ends with is that device.
pub proof fn law_adapter_is_tried_with_its_own_answers<D>(
    selection: SelectionView<D>,
    caps: SurfaceCapabilities,
    device: D,
)
    requires
        selection.well_formed(),
        selection.request() is QueryCapabilities,
        caps.formats@.len() > 0,
        caps.alpha_modes@.len() > 0,
    ensures
        ({
            let adapter = selection.request()->QueryCapabilities_adapter;
            let queried = selection.after(Reply::Capabilities(caps));
            let opened = queried.after(Reply::Device(Ok(device)));
            let passed = opened.after(Reply::Surface(None));
            &&& queried.request() == RequestView::<D>::CreateDevice { adapter }
            &&& opened.request() matches RequestView::ConfigureSurface {
                adapter: asked,
                test,
                device: given,
            }
            &&& asked == adapter
            &&& given == device
            &&& test.format == caps.formats@.first()
            &&& test.alpha_mode == caps.alpha_modes@.first()
            &&& passed.stage == Stage::Selected(device)
            &&& passed.order[passed.place] == adapter
        }),
{
}

/// There is a test for a surface exactly if a format and an alpha mode are
/// offered, however many; it uses the first of each. If there is none, the error
/// tells which of the two is missing, the format first.
pub proof fn law_first_format_and_alpha_mode_are_tested(
    caps: SurfaceCapabilities,
    test: Result<SurfaceTest, ContextError>,
)
    requires
        call_ensures(surface_test, (&caps,), test),
    ensures
        test is Ok <==> caps.formats@.len() > 0 && caps.alpha_modes@.len() > 0,
        test matches Ok(test) ==> test.format == caps.formats@.first() && test.alpha_mode
            == caps.alpha_modes@.first(),
        test matches Err(error) ==> {
            &&& error is NoSurfaceFormats <==> caps.formats@.len() == 0
            &&& error is NoAlphaModes <==> caps.formats@.len() > 0 && caps.alpha_modes@.len() == 0
        },
{
}

/// The test for a surface depends on the preferred format and alpha mode alone,
/// and on them only for what it says of the two.
pub proof fn law_tests_differ_in_format_and_alpha_mode_alone(
    caps: SurfaceCapabilities,
    other: SurfaceCapabilities,
    test: SurfaceTest,
    other_test: SurfaceTest,
)
    requires
        call_ensures(surface_test, (&caps,), Ok(test)),
        call_ensures(surface_test, (&other,), Ok(other_test)),
    ensures
        test@ == (TestView {
            format: caps.formats@.first(),
            alpha_mode: caps.alpha_modes@.first(),
            ..other_test@
        }),
        test.width == 64,
        test.height == 64,
        test.usage == 0x10,
        test.present_mode is Fifo,
        test.desired_maximum_frame_latency == 2,
        test.view_formats@.len() == 0,
        test.errors is Validation,
{
}

/// An adapter fails for want of a format or of an alpha mode, because it refused
/// the device, or because the surface could not be configured; the failure tells
/// which, with the reason that was given.
pub proof fn law_failure_tells_the_reason<D>(
    selection: SelectionView<D>,
    caps: SurfaceCapabilities,
    device: Result<D, ContextError>,
    surface: Option<String>,
)
    ensures
        selection.request() is QueryCapabilities ==> {
            let failure = selection.failure(Reply::Capabilities(caps));
            &&& failure == Some(ContextError::NoSurfaceFormats) <==> caps.formats@.len() == 0
            &&& failure == Some(ContextError::NoAlphaModes) <==> caps.formats@.len() > 0
                && caps.alpha_modes@.len() == 0
            &&& failure is None <==> caps.formats@.len() > 0 && caps.alpha_modes@.len() > 0
        },
        selection.request() is CreateDevice ==> selection.failure(Reply::Device(device)) == device.err(),
        selection.request() is ConfigureSurface ==> match surface {
            Some(reason) => selection.failure(Reply::Surface(surface)) == Some(
                ContextError::SurfaceConfiguration(reason),
            ),
            None => selection.failure(Reply::<D>::Surface(surface)) is None,
        },
{
}

proof fn lemma_driven_when_finished<D>(
    selection: SelectionView<D>,
    trials: spec_fn(usize) -> Trial<D>,
    requests: nat,
)
    requires
        selection.is_finished(),
    ensures
        selection.driven(trials, requests) == selection,
    decreases requests,
{
    if requests > 0 {
        lemma_driven_when_finished(selection, trials, (requests - 1) as nat);
    }
}

proof fn lemma_driven_to_the_end<D>(
    selection: SelectionView<D>,
    trials: spec_fn(usize) -> Trial<D>,
    requests: nat,
)
    requires
        selection.well_formed(),
        selection.stage is Capabilities,
        requests >= selection.requests_left(),
    ensures
        selection.driven(trials, requests) == end_from(selection.order, trials, selection.place),
    decreases requests,
{
    reveal_with_fuel(SelectionView::driven, 4);
    let trial = trials(selection.order[selection.place]);
    let spent: nat = if test_for(trial.capabilities) is Err {
        1
    } else if trial.device is Err {
        2
    } else {
        3
    };
    let rest = (requests - spent) as nat;
    let next = if trial.passes() {
        selection.at_stage(Stage::Selected(trial.device->Ok_0))
    } else {
        selection.given_up()
    };
    assert(selection.driven(trials, requests) == next.driven(trials, rest));
    if next.is_finished() {
        assert(next == end_from(selection.order, trials, next.place));
        lemma_driven_when_finished(next, trials, rest);
    } else {
        lemma_driven_to_the_end(next, trials, rest);
    }
}

proof fn lemma_end_is_first_passing<D>(
    order: Seq<usize>,
    trials: spec_fn(usize) -> Trial<D>,
    from: int,
    place: int,
)
    requires
        0 <= from <= place < order.len(),
        trials(order[place]).passes(),
        forall|i: int| from <= i < place ==> !trials(#[trigger] order[i]).passes(),
    ensures
        end_from(order, trials, from) == (SelectionView {
            order,
            place,
            stage: Stage::Selected(trials(order[place]).device->Ok_0),
        }),
    decreases place - from,
{
    if from < place {
        lemma_end_is_first_passing(order, trials, from + 1, place);
    }
}

proof fn lemma_end_without_passing<D>(
    order: Seq<usize>,
    trials: spec_fn(usize) -> Trial<D>,
    from: int,
)
    requires
        0 <= from <= order.len(),
        forall|i: int|
            from <= i < order.len() ==> !trials(#[trigger] order[i]).passes(),
    ensures
        end_from(order, trials, from).stage is Exhausted,
    decreases order.len() - from,
{
    if from < order.len() {
        lemma_end_without_passing(order, trials, from + 1);
    }
}

/// The first adapter of the order that passes is selected, with its own device,
/// whatever the adapters behind it would have answered.
pub proof fn law_first_passing_adapter_is_selected<D>(
    selection: SelectionView<D>,
    trials: spec_fn(usize) -> Trial<D>,
    place: int,
)
    requires
        selection.stage is Capabilities,
        selection.place == 0,
        0 <= place < selection.order.len(),
        trials(selection.order[place]).passes(),
        forall|i: int| 0 <= i < place ==> !trials(#[trigger] selection.order[i]).passes(),
    ensures
        selection.driven(trials, 3 * selection.order.len()) == (SelectionView {
            order: selection.order,
            place,
            stage: Stage::Selected(trials(selection.order[place]).device->Ok_0),
        }),
{
    lemma_driven_to_the_end(selection, trials, 3 * selection.order.len());
    lemma_end_is_first_passing(selection.order, trials, 0, place);
}

/// If no adapter passes, the selection ends without one.
pub proof fn law_no_passing_adapter_is_reported<D>(
    selection: SelectionView<D>,
    trials: spec_fn(usize) -> Trial<D>,
)
    requires
        selection.stage is Capabilities,
        selection.place == 0,
        selection.order.len() > 0,
        forall|i: int|
            0 <= i < selection.order.len() ==> !trials(#[trigger] selection.order[i]).passes(),
    ensures
        selection.driven(trials, 3 * selection.order.len()).stage is Exhausted,
{
    lemma_driven_to_the_end(selection, trials, 3 * selection.order.len());
    lemma_end_without_passing(selection.order, trials, 0);
}

/// A selection that was driven to its end ends with the first adapter that
/// passes and the device that this very adapter created, or with the error that
/// none passes.
pub proof fn law_selection_ends_with_an_adapter_and_its_device<D>(
    selection: AdapterSelection<D>,
    trials: spec_fn(usize) -> Trial<D>,
    driven: AdapterSelection<D>,
    end: Option<Result<(usize, D), ContextError>>,
)
    requires
        selection@.request() is QueryCapabilities,
        selection@.place == 0,
        selection@.order.len() > 0,
        driven@ == selection@.driven(trials, 3 * selection@.order.len()),
        call_ensures(AdapterSelection::<D>::finish, (driven,), end),
    ensures
        match end {
            Some(Ok((adapter, device))) => exists|place: int|
                {
                    &&& 0 <= place < selection@.order.len()
                    &&& #[trigger] selection@.order[place] == adapter
                    &&& trials(adapter).passes()
                    &&& trials(adapter).device == Ok::<D, ContextError>(device)
                    &&& forall|i: int|
                        0 <= i < place ==> !trials(#[trigger] selection@.order[i]).passes()
                },
            Some(Err(error)) => error is NoUsableAdapter && forall|i: int|
                0 <= i < selection@.order.len() ==> !trials(
                    #[trigger] selection@.order[i],
                ).passes(),
            None => false,
        },
{
    let order = selection@.order;
    if exists|i: int| 0 <= i < order.len() && trials(#[trigger] order[i]).passes() {
        let at = choose|i: int| 0 <= i < order.len() && trials(#[trigger] order[i]).passes();
        let place = lemma_first_passing(order, trials, at);
        law_first_passing_adapter_is_selected(selection@, trials, place);
        assert(order[place] == order[place]);
    } else {
        law_no_passing_adapter_is_reported(selection@, trials);
    }
}

/// Of all adapters that pass, the one of the best rank is selected.
pub proof fn law_selected_adapter_is_the_best_that_passes<D>(
    selection: SelectionView<D>,
    trials: spec_fn(usize) -> Trial<D>,
    ranks: Seq<Priority>,
    other: usize,
)
    requires
        selection.stage is Capabilities,
        selection.place == 0,
        is_ranking(selection.order, ranks),
        other < ranks.len(),
        trials(other).passes(),
    ensures
        ({
            let end = selection.driven(trials, 3 * selection.order.len());
            let selected = selection.order[end.place];
            &&& end.stage == Stage::Selected(trials(selected).device->Ok_0)
            &&& trials(selected).passes()
            &&& selected == other || tried_before(ranks, selected as int, other as int)
        }),
{
    let order = selection.order;
    assert(order.contains(other));
    let at = choose|at: int| 0 <= at < order.len() && order[at] == other;
    let place = lemma_first_passing(order, trials, at);
    law_first_passing_adapter_is_selected(selection, trials, place);
}

proof fn lemma_first_passing<D>(
    order: Seq<usize>,
    trials: spec_fn(usize) -> Trial<D>,
    at: int,
) -> (place: int)
    requires
        0 <= at < order.len(),
        trials(order[at]).passes(),
    ensures
        0 <= place <= at,
        trials(order[place]).passes(),
        forall|i: int| 0 <= i < place ==> !trials(#[trigger] order[i]).passes(),
    decreases at,
{
    if exists|i: int| 0 <= i < at && trials(#[trigger] order[i]).passes() {
        let i = choose|i: int| 0 <= i < at && trials(#[trigger] order[i]).passes();
        lemma_first_passing(order, trials, i)
    } else {
        at
    }
}

} // verus!
