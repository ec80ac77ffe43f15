//! The GPU context that windows share.

use crate::adapter::{summary, AdapterSummary};
use crate::config::{default_config, DeviceRequest, GpuContextConfig};
use crate::error::ContextError;
use crate::features::{dual_source_blending_bit, has_dual_source_blending};
use crate::handles::{description, supported_features};
use crate::instance::InstanceRequest;
use std::sync::atomic::{AtomicBool, Ordering};
use std::sync::Arc;
use vstd::prelude::*;

verus! {

/// `wgpu::DeviceLostReason`: why a device was lost.
#[verifier::external_type_specification]
#[verifier::external_body]
pub struct ExDeviceLostReason(wgpu::DeviceLostReason);

/// Why a device was lost.
#[derive(Clone, Copy, Debug, PartialEq, Eq, Structural)]
pub enum LossReason {
    /// No particular reason is known; driver errors are among these.
    Unknown,
    /// The device was destroyed on purpose.
    Destroyed,
}

/// The reason that a `wgpu::DeviceLostReason` stands for: the variant of the same
/// name.
pub uninterp spec fn loss_reason(reason: wgpu::DeviceLostReason) -> LossReason;

/// Tells the variants of `wgpu::DeviceLostReason` apart, each by its own name.
#[verifier::external_body]
fn read_loss_reason(reason: wgpu::DeviceLostReason) -> (r: LossReason)
    ensures
        r == loss_reason(reason),
{
    match reason {
        wgpu::DeviceLostReason::Unknown => LossReason::Unknown,
        wgpu::DeviceLostReason::Destroyed => LossReason::Destroyed,
    }
}

/// Whether losing a device for this reason calls for a new context. Destroying
/// a device on purpose does not.
pub fn calls_for_recovery(reason: LossReason) -> (r: bool)
    ensures
        r == (reason != LossReason::Destroyed),
{
    reason != LossReason::Destroyed
}

/// Whether reading the flag can give `value`. Here this is established only by
/// reading the flag and getting `value`. Nothing more is known of what a flag
/// holds: others may raise it at any time.
pub open spec fn can_read(flag: AtomicBool, value: bool) -> bool {
    call_ensures(AtomicBool::load, (&flag, Ordering::Relaxed), value)
}

/// Whether the flag can be raised. Here this is established only by raising it.
pub open spec fn can_be_raised(flag: AtomicBool) -> bool {
    call_ensures(AtomicBool::store, (&flag, true, Ordering::Relaxed), ())
}

/// Whether the flag can be one that was lowered when it was made. Here this is
/// established only by making it lowered.
pub open spec fn can_start_lowered(flag: AtomicBool) -> bool {
    call_ensures(AtomicBool::new, (false,), flag)
}

/// Whether a loss can be reported for this reason and with this message. Here
/// this is established only by reporting it.
pub open spec fn can_report<F: Fn(LossReason, String)>(
    report: F,
    reason: LossReason,
    message: String,
) -> bool {
    call_ensures(report, (reason, message), ())
}

/// Raises a flag by means of `store`. Of the flag nothing is known but that
/// `true` may be stored in it, so nothing else is done to it, before or after.
pub fn raise_flag<A, S: Fn(&A, bool, Ordering)>(flag: &A, store: &S)
    requires
        call_requires(*store, (flag, true, Ordering::Relaxed)),
    ensures
        call_ensures(*store, (flag, true, Ordering::Relaxed), ()),
{
    store(flag, true, Ordering::Relaxed);
}

/// Takes note of the loss of a device: it is reported with its reason and the
/// driver's message, and `raise` is called if the loss calls for a new context.
/// If it does not, `raise` need not be callable, so it is not called.
pub fn note_device_lost<F: Fn(LossReason, String), R: Fn()>(
    raise: &R,
    reason: wgpu::DeviceLostReason,
    message: String,
    report: &F,
)
    requires
        call_requires(*report, (loss_reason(reason), message)),
        loss_reason(reason) != LossReason::Destroyed ==> call_requires(*raise, ()),
    ensures
        can_report(*report, loss_reason(reason), message),
        loss_reason(reason) != LossReason::Destroyed ==> call_ensures(*raise, (), ()),
{
    let known: LossReason = read_loss_reason(reason);
    report(known, message);
    if calls_for_recovery(known) {
        raise();
    }
}

/// `wgpu::Device::set_device_lost_callback` has `note_device_lost` called with
/// the report and with what raises the flag when the device is lost. A native
/// device has one callback, so one that was set before is replaced; a browser's
/// device keeps it beside the new one. When the callback is called is up to the
/// driver.
#[verifier::external_body]
fn watch_device<F: Fn(LossReason, String) + Send + 'static>(
    device: &wgpu::Device,
    flag: Arc<AtomicBool>,
    report: F,
)
    requires
        forall|reason: LossReason, message: String| call_requires(report, (reason, message)),
{
    device.set_device_lost_callback(move |reason, message| {
        note_device_lost(&|| raise_flag(&*flag, &AtomicBool::store), reason, message, &report)
    });
}

/// Whether the device can be one whose loss is noted in the flag and reported.
/// Here this is established only by setting its callback.
pub closed spec fn is_watched<F: Fn(LossReason, String) + Send + 'static>(
    device: wgpu::Device,
    flag: AtomicBool,
    report: F,
) -> bool {
    call_ensures(watch_device::<F>, (&device, Arc::new(flag), report), ())
}

/// The GPU as it was opened: an adapter, its device and its queue.
pub struct WgpuContext {
    pub instance: wgpu::Instance,
    pub adapter: wgpu::Adapter,
    pub device: Arc<wgpu::Device>,
    pub queue: Arc<wgpu::Queue>,
    dual_source_blending: bool,
    device_lost: Arc<AtomicBool>,
}

/// What a context holds.
pub struct ContextView {
    pub instance: wgpu::Instance,
    pub adapter: wgpu::Adapter,
    pub device: wgpu::Device,
    pub queue: wgpu::Queue,
    pub dual_source_blending: bool,
    pub device_lost: AtomicBool,
}

impl View for WgpuContext {
    type V = ContextView;

    closed spec fn view(&self) -> ContextView {
        ContextView {
            instance: self.instance,
            adapter: self.adapter,
            device: *self.device,
            queue: *self.queue,
            dual_source_blending: self.dual_source_blending,
            device_lost: *self.device_lost,
        }
    }
}

/// Whether an adapter that offers these formats for a surface can present to it.
pub open spec fn compatibility(
    formats: Seq<wgpu::TextureFormat>,
    adapter: AdapterSummary,
) -> Result<(), ContextError> {
    if formats.len() == 0 {
        Err(
            ContextError::IncompatibleSurface {
                name: adapter.name,
                backend: adapter.backend,
                device: adapter.device,
            },
        )
    } else {
        Ok(())
    }
}

impl WgpuContext {
    fn open(
        instance: wgpu::Instance,
        adapter: wgpu::Adapter,
        device: Arc<wgpu::Device>,
        queue: Arc<wgpu::Queue>,
        dual_source_blending: bool,
    ) -> (context: Self)
        ensures
            context@.instance == instance,
            context@.adapter == adapter,
            context@.device == *device,
            context@.queue == *queue,
            context@.dual_source_blending == dual_source_blending,
            can_start_lowered(context@.device_lost),
    {
        let device_lost = Arc::new(AtomicBool::new(false));
        WgpuContext { instance, adapter, device, queue, dual_source_blending, device_lost }
    }

    /// The context for an adapter that was selected together with its device, its
    /// queue and whether it supports dual-source blending. The device is watched
    /// from now on; `report` is told of its loss.
    pub fn new(
        instance: wgpu::Instance,
        selected: Result<(wgpu::Adapter, wgpu::Device, wgpu::Queue, bool), ContextError>,
        report: impl Fn(LossReason, String) + Send + 'static,
    ) -> (r: Result<Self, ContextError>)
        requires
            forall|reason: LossReason, message: String| call_requires(report, (reason, message)),
        ensures
            match selected {
                Ok((adapter, device, queue, dual_source_blending)) => {
                    &&& r matches Ok(context)
                    &&& context@.instance == instance
                    &&& context@.adapter == adapter
                    &&& context@.device == device
                    &&& context@.queue == queue
                    &&& context@.dual_source_blending == dual_source_blending
                    &&& can_start_lowered(context@.device_lost)
                    &&& is_watched(context@.device, context@.device_lost, report)
                },
                Err(error) => r == Err::<WgpuContext, ContextError>(error),
            },
    {
        match selected {
            Ok((adapter, device, queue, dual_source_blending)) => {
                let context = Self::open(
                    instance,
                    adapter,
                    Arc::new(device),
                    Arc::new(queue),
                    dual_source_blending,
                );
                watch_device(&context.device, Arc::clone(&context.device_lost), report);
                Ok(context)
            },
            Err(error) => Err(error),
        }
    }

    /// Creates a `WgpuContext` from externally-initialized resources.
    ///
    /// Use this when you need to share an instance, adapter, device and queue
    /// with other libraries (e.g. a video decoder or compute framework). The
    /// caller is responsible for creating the resources and ensuring the adapter
    /// and device are compatible with the surfaces that will be created for
    /// windows.
    ///
    /// A device-lost callback is installed on the provided device; if the caller
    /// has already set one it will be replaced. `report` is told of the loss.
    pub fn from_shared_resources(
        instance: wgpu::Instance,
        adapter: wgpu::Adapter,
        device: Arc<wgpu::Device>,
        queue: Arc<wgpu::Queue>,
        report: impl Fn(LossReason, String) + Send + 'static,
    ) -> (context: Self)
        requires
            forall|reason: LossReason, message: String| call_requires(report, (reason, message)),
        ensures
            context@.instance == instance,
            context@.adapter == adapter,
            context@.device == *device,
            context@.queue == *queue,
            context@.dual_source_blending == supported_features(adapter).contains(
                dual_source_blending_bit(),
            ),
            can_start_lowered(context@.device_lost),
            is_watched(context@.device, context@.device_lost, report),
    {
        let dual_source_blending = has_dual_source_blending(adapter.features());
        let context = Self::open(instance, adapter, device, queue, dual_source_blending);
        watch_device(&context.device, Arc::clone(&context.device_lost), report);
        context
    }

    /// The context for a browser, given what came of the request for a device of
    /// its adapter. The device is watched from now on; `report` is told of its
    /// loss.
    pub fn new_web(
        instance: wgpu::Instance,
        adapter: wgpu::Adapter,
        opened: Result<(wgpu::Device, wgpu::Queue, bool), ContextError>,
        report: impl Fn(LossReason, String) + Send + 'static,
    ) -> (r: Result<Self, ContextError>)
        requires
            forall|reason: LossReason, message: String| call_requires(report, (reason, message)),
        ensures
            match opened {
                Ok((device, queue, dual_source_blending)) => {
                    &&& r matches Ok(context)
                    &&& context@.instance == instance
                    &&& context@.adapter == adapter
                    &&& context@.device == device
                    &&& context@.queue == queue
                    &&& context@.dual_source_blending == dual_source_blending
                    &&& can_start_lowered(context@.device_lost)
                    &&& is_watched(context@.device, context@.device_lost, report)
                },
                Err(error) => r == Err::<WgpuContext, ContextError>(error),
            },
    {
        match opened {
            Ok((device, queue, dual_source_blending)) => Self::new(
                instance,
                Ok((adapter, device, queue, dual_source_blending)),
                report,
            ),
            Err(error) => Err(error),
        }
    }

    /// What came of the request for a device: the device, the queue and whether
    /// dual-source blending is supported, or why there is no device.
    pub fn create_device<D, Q>(
        request: &DeviceRequest,
        reply: Result<(D, Q), String>,
    ) -> (r: Result<(D, Q, bool), ContextError>)
        ensures
            r == match reply {
                Ok((device, queue)) => Ok((device, queue, request.dual_source_blending)),
                Err(reason) => Err(ContextError::DeviceCreation(reason)),
            },
    {
        match reply {
            Ok((device, queue)) => Ok((device, queue, request.dual_source_blending)),
            Err(reason) => Err(ContextError::DeviceCreation(reason)),
        }
    }

    /// The instance for a desktop, which `create` creates as it is requested.
    pub fn instance<I>(create: impl FnOnce(InstanceRequest) -> I) -> (r: I)
        requires
            forall|request: InstanceRequest|
                request.is_for_desktop() ==> call_requires(create, (request,)),
        ensures
            exists|request: InstanceRequest|
                request.is_for_desktop() && #[trigger] call_ensures(create, (request,), r),
    {
        create(InstanceRequest::desktop())
    }

    /// Check that the adapter in use can present to a surface. `formats` asks an
    /// adapter which formats it offers for the surface.
    pub fn check_compatible_with_surface(
        &self,
        formats: impl FnOnce(&wgpu::Adapter) -> Vec<wgpu::TextureFormat>,
    ) -> (r: Result<(), ContextError>)
        requires
            call_requires(formats, (&self@.adapter,)),
        ensures
            exists|offered: Vec<wgpu::TextureFormat>| #[trigger]
                call_ensures(formats, (&self@.adapter,), offered) && r == compatibility(
                    offered@,
                    summary(description(self@.adapter)),
                ),
    {
        let offered = formats(&self.adapter);
        if offered.len() == 0 {
            Err(ContextError::incompatible(&AdapterSummary::of(&self.adapter)))
        } else {
            Ok(())
        }
    }

    /// Whether dual-source blending is supported by the GPU.
    pub fn supports_dual_source_blending(&self) -> (r: bool)
        ensures
            r == self@.dual_source_blending,
    {
        self.dual_source_blending
    }

    /// Returns true if the GPU device was lost (e.g., due to driver crash,
    /// suspend/resume). When this returns true, the context should be recreated.
    pub fn device_lost(&self) -> (lost: bool)
        ensures
            can_read(self@.device_lost, lost),
    {
        self.device_lost.load(Ordering::Relaxed)
    }

    /// Returns a clone of the device-lost flag for sharing with renderers.
    pub fn device_lost_flag(&self) -> (flag: Arc<AtomicBool>)
        ensures
            *flag == self@.device_lost,
    {
        Arc::clone(&self.device_lost)
    }
}

/// What is shared between windows: the context, once there is one, and how to
/// ask for it.
pub struct SharedView {
    pub context: Option<WgpuContext>,
    pub config: GpuContextConfig,
}

/// Shared GPU context, used to coordinate device recovery across multiple
/// windows and to carry configuration for device creation.
pub struct GpuContext {
    context: Option<WgpuContext>,
    config: GpuContextConfig,
}

impl View for GpuContext {
    type V = SharedView;

    closed spec fn view(&self) -> SharedView {
        SharedView { context: self.context, config: self.config }
    }
}

/// Whether the device is lost, given whether there is a context and what its
/// flag says.
pub open spec fn is_lost_if(initialised: bool, flag: bool) -> bool {
    initialised && flag
}

/// Whether a new context is needed, given whether there is one and what its flag
/// says.
pub open spec fn is_needed_if(initialised: bool, flag: bool) -> bool {
    !initialised || flag
}

impl SharedView {
    /// Whether `lost` can be what is found when asking if the device is lost: it
    /// is what follows from a value that reading the flag can give.
    pub open spec fn can_be_lost(self, lost: bool) -> bool {
        match self.context {
            Some(context) => exists|flag: bool| #[trigger]
                can_read(context@.device_lost, flag) && lost == is_lost_if(true, flag),
            None => !lost,
        }
    }

    /// Whether `needed` can be what is found when asking if a new context is
    /// needed: it is what follows from a value that reading the flag can give.
    pub open spec fn can_need_context(self, needed: bool) -> bool {
        match self.context {
            Some(context) => exists|flag: bool| #[trigger]
                can_read(context@.device_lost, flag) && needed == is_needed_if(true, flag),
            None => needed,
        }
    }

    /// Whether there is a context whose GPU supports dual-source blending.
    pub open spec fn supports_dual_source_blending(self) -> bool {
        self.context matches Some(context) && context@.dual_source_blending
    }

    /// The instance of the context, if there is one.
    pub open spec fn instance(self) -> Option<wgpu::Instance> {
        match self.context {
            Some(context) => Some(context@.instance),
            None => None,
        }
    }

    /// What is shared once the context is dropped.
    pub open spec fn cleared(self) -> SharedView {
        SharedView { context: None, config: self.config }
    }
}

/// Whether the device is lost, given whether there is a context and what its
/// flag says.
pub fn is_lost(initialised: bool, flag: bool) -> (lost: bool)
    ensures
        lost == is_lost_if(initialised, flag),
{
    initialised && flag
}

/// Whether a new context is needed, given whether there is one and what its flag
/// says.
pub fn is_new_context_needed(initialised: bool, flag: bool) -> (needed: bool)
    ensures
        needed == is_needed_if(initialised, flag),
{
    !initialised || is_lost(initialised, flag)
}

impl GpuContext {
    /// Create a new `GpuContext` with the given configuration.
    pub fn new(config: GpuContextConfig) -> (shared: Self)
        ensures
            shared@ == (SharedView { context: None, config }),
    {
        GpuContext { context: None, config }
    }

    /// Create a `GpuContext` that already holds an initialised `WgpuContext`.
    ///
    /// The config is set to defaults since the device was created externally.
    pub fn from_wgpu_context(wgpu_context: WgpuContext) -> (shared: Self)
        ensures
            shared@.context == Some(wgpu_context),
            shared@.config@ == default_config(),
    {
        GpuContext { context: Some(wgpu_context), config: GpuContextConfig::default() }
    }

    /// Returns `true` if the underlying `WgpuContext` has been initialised and
    /// reports that the GPU device was lost.
    pub fn device_lost(&self) -> (lost: bool)
        ensures
            self@.can_be_lost(lost),
    {
        match &self.context {
            Some(context) => is_lost(true, context.device_lost()),
            None => is_lost(false, false),
        }
    }

    /// Returns `true` if the `WgpuContext` has not been initialised, or was
    /// initialised but the device has been lost.
    pub fn needs_new_context(&self) -> (needed: bool)
        ensures
            self@.can_need_context(needed),
    {
        match &self.context {
            Some(context) => is_new_context_needed(true, context.device_lost()),
            None => is_new_context_needed(false, false),
        }
    }

    /// Returns `true` if dual-source blending is supported by the current GPU.
    pub fn supports_dual_source_blending(&self) -> (r: bool)
        ensures
            r == self@.supports_dual_source_blending(),
    {
        match &self.context {
            Some(context) => context.supports_dual_source_blending(),
            None => false,
        }
    }

    /// Clone the `wgpu::Instance` from the underlying context, if initialised.
    pub fn instance(&self) -> (r: Option<wgpu::Instance>)
        ensures
            r == self@.instance(),
    {
        match &self.context {
            Some(context) => Some(context.instance.clone()),
            None => None,
        }
    }

    /// Run a callback with read access to the `WgpuContext`, if initialised.
    pub fn with_context<R>(&self, f: impl FnOnce(&WgpuContext) -> R) -> (r: Option<R>)
        requires
            self@.context matches Some(context) ==> call_requires(f, (&context,)),
        ensures
            match (self@.context, r) {
                (Some(context), Some(out)) => call_ensures(f, (&context,), out),
                (None, None) => true,
                _ => false,
            },
    {
        match &self.context {
            Some(context) => Some(f(context)),
            None => None,
        }
    }

    /// Check that the current adapter is compatible with a surface. `formats` asks
    /// an adapter which formats it offers for the surface. Without a context there
    /// is nothing to check.
    pub fn check_compatible_with_surface(
        &self,
        formats: impl FnOnce(&wgpu::Adapter) -> Vec<wgpu::TextureFormat>,
    ) -> (r: Result<(), ContextError>)
        requires
            self@.context matches Some(context) ==> call_requires(formats, (&context@.adapter,)),
        ensures
            match self@.context {
                Some(context) => exists|offered: Vec<wgpu::TextureFormat>| #[trigger]
                    call_ensures(formats, (&context@.adapter,), offered) && r == compatibility(
                        offered@,
                        summary(description(context@.adapter)),
                    ),
                None => r is Ok,
            },
    {
        match &self.context {
            Some(context) => context.check_compatible_with_surface(formats),
            None => Ok(()),
        }
    }

    /// Initialise the `WgpuContext` if it has not been created yet. `create`
    /// creates one as a configuration says.
    ///
    /// If the context already exists this is a no-op.
    pub fn ensure_initialized<E>(
        &mut self,
        create: impl FnOnce(&GpuContextConfig) -> Result<WgpuContext, E>,
    ) -> (r: Result<(), E>)
        requires
            old(self)@.context is None ==> call_requires(create, (&old(self)@.config,)),
        ensures
            match old(self)@.context {
                Some(_) => r is Ok && final(self)@ == old(self)@,
                None => exists|created: Result<WgpuContext, E>| #[trigger]
                    call_ensures(create, (&old(self)@.config,), created) && final(self)@
                        == stored(old(self)@, created) && r == outcome(created),
            },
    {
        if self.context.is_none() {
            let created = create(&self.config);
            match created {
                Ok(context) => {
                    self.context = Some(context);
                    Ok(())
                },
                Err(error) => Err(error),
            }
        } else {
            Ok(())
        }
    }

    /// Replace the current `WgpuContext` with a freshly-created one. `create`
    /// creates one as a configuration says. If it fails the current one stays.
    pub fn replace_context<E>(
        &mut self,
        create: impl FnOnce(&GpuContextConfig) -> Result<WgpuContext, E>,
    ) -> (r: Result<(), E>)
        requires
            call_requires(create, (&old(self)@.config,)),
        ensures
            exists|created: Result<WgpuContext, E>| #[trigger]
                call_ensures(create, (&old(self)@.config,), created) && final(self)@ == stored(
                    old(self)@,
                    created,
                ) && r == outcome(created),
    {
        let created = create(&self.config);
        match created {
            Ok(context) => {
                self.context = Some(context);
                Ok(())
            },
            Err(error) => Err(error),
        }
    }

    /// Drop the current `WgpuContext`, if any.
    pub fn clear_context(&mut self)
        ensures
            final(self)@ == old(self)@.cleared(),
    {
        self.context = None;
    }

    /// Run a callback with read access to the underlying `WgpuContext`, which has
    /// to be initialised.
    pub fn with_context_ref<R>(&self, f: impl FnOnce(&WgpuContext) -> R) -> (r: R)
        requires
            self@.context is Some,
            call_requires(f, (&self@.context->0,)),
        ensures
            call_ensures(f, (&self@.context->0,), r),
    {
        match &self.context {
            Some(context) => f(context),
            None => vstd::pervasive::unreached(),
        }
    }
}

/// What is shared once a context was or was not created: the new context takes
/// the place of the old one, a failure changes nothing.
pub open spec fn stored<E>(shared: SharedView, created: Result<WgpuContext, E>) -> SharedView {
    match created {
        Ok(context) => SharedView { context: Some(context), config: shared.config },
        Err(_) => shared,
    }
}

/// Whether a context was created, and if not, why.
pub open spec fn outcome<E>(created: Result<WgpuContext, E>) -> Result<(), E> {
    match created {
        Ok(_) => Ok(()),
        Err(error) => Err(error),
    }
}

/// Raising a flag stores `true` in it and nothing else: a flag that takes no other
/// value can be raised, and what is done to an atomic flag is that `true` is
/// stored.
pub proof fn law_raising_stores_nothing_but_true<A, S: Fn(&A, bool, Ordering)>(
    flag: A,
    store: S,
    atomic: AtomicBool,
)
    requires
        forall|stored: bool, order: Ordering| #[trigger]
            call_requires(store, (&flag, stored, order)) <==> stored,
        call_ensures(raise_flag, (&atomic, &AtomicBool::store), ()),
    ensures
        call_requires(raise_flag, (&flag, &store)),
        call_ensures(raise_flag, (&flag, &store), ()) ==> call_ensures(
            store,
            (&flag, true, Ordering::Relaxed),
            (),
        ),
        can_be_raised(atomic),
{
    lemma_raising_stores_true(atomic, AtomicBool::store);
}

proof fn lemma_raising_stores_true<A, S: Fn(&A, bool, Ordering)>(flag: A, store: S)
    requires
        call_ensures(raise_flag, (&flag, &store), ()),
    ensures
        call_ensures(store, (&flag, true, Ordering::Relaxed), ()),
{
}

/// A device that was destroyed on purpose raises nothing: its loss can be noted
/// even where nothing could be raised. Every other loss raises the flag. Both are
/// reported, with the reason and the message that the driver gave.
pub proof fn law_only_a_real_loss_is_raised<F: Fn(LossReason, String), R: Fn()>(
    raise: R,
    reason: wgpu::DeviceLostReason,
    message: String,
    report: F,
)
    requires
        call_requires(report, (loss_reason(reason), message)),
    ensures
        loss_reason(reason) is Destroyed || call_requires(raise, ()) ==> call_requires(
            note_device_lost,
            (&raise, reason, message, &report),
        ),
        call_ensures(note_device_lost, (&raise, reason, message, &report), ()) ==> {
            &&& call_ensures(report, (loss_reason(reason), message), ())
            &&& loss_reason(reason) is Unknown ==> call_ensures(raise, (), ())
        },
{
}

/// Whether a loss calls for a new context is whether it was not on purpose.
pub proof fn law_recovery_unless_on_purpose(unknown: bool, destroyed: bool)
    requires
        call_ensures(calls_for_recovery, (LossReason::Unknown,), unknown),
        call_ensures(calls_for_recovery, (LossReason::Destroyed,), destroyed),
    ensures
        unknown,
        !destroyed,
{
}

/// A context can present to a surface exactly if its adapter offers a format for
/// it, however many. If it cannot, the error names that adapter.
pub proof fn law_any_format_makes_a_surface_compatible<
    F: FnOnce(&wgpu::Adapter) -> Vec<wgpu::TextureFormat>,
>(context: WgpuContext, formats: F, r: Result<(), ContextError>)
    requires
        call_ensures(WgpuContext::check_compatible_with_surface, (&context, formats), r),
    ensures
        exists|offered: Vec<wgpu::TextureFormat>|
            {
                &&& #[trigger] call_ensures(formats, (&context@.adapter,), offered)
                &&& r is Ok <==> offered@.len() > 0
            },
        r matches Err(error) ==> {
            let adapter = summary(description(context@.adapter));
            &&& error matches ContextError::IncompatibleSurface { name, backend, device }
            &&& name == adapter.name
            &&& backend == adapter.backend
            &&& device == adapter.device
        },
{
}

/// The check of what is shared is the check of its context; without a context
/// every surface will do.
pub proof fn law_shared_check_is_that_of_the_context<
    F: FnOnce(&wgpu::Adapter) -> Vec<wgpu::TextureFormat>,
>(shared: GpuContext, formats: F, r: Result<(), ContextError>)
    requires
        call_ensures(GpuContext::check_compatible_with_surface, (&shared, formats), r),
    ensures
        shared@.context is None ==> r is Ok,
        shared@.context matches Some(context) ==> exists|offered: Vec<wgpu::TextureFormat>|
            {
                &&& #[trigger] call_ensures(formats, (&context@.adapter,), offered)
                &&& r is Ok <==> offered@.len() > 0
                &&& r is Err ==> r->Err_0 == (ContextError::IncompatibleSurface {
                    name: summary(description(context@.adapter)).name,
                    backend: summary(description(context@.adapter)).backend,
                    device: summary(description(context@.adapter)).device,
                })
            },
{
}

/// Without a context nothing is lost and a new one is needed. With one, both
/// questions are answered by what its flag gives.
pub proof fn law_flag_answers_for_the_context(shared: GpuContext, lost: bool, needed: bool)
    requires
        call_ensures(GpuContext::device_lost, (&shared,), lost),
        call_ensures(GpuContext::needs_new_context, (&shared,), needed),
    ensures
        match shared@.context {
            Some(context) => can_read(context@.device_lost, lost) && can_read(
                context@.device_lost,
                needed,
            ),
            None => !lost && needed,
        },
{
}

/// What a context says of dual-source blending is what its adapter supports, from
/// the plan of its device on.
pub proof fn law_blending_is_what_the_adapter_supports<
    F: Fn(LossReason, String) + Send + 'static,
>(
    config: GpuContextConfig,
    handles: (wgpu::Instance, wgpu::Adapter, wgpu::Device, wgpu::Queue),
    report: F,
    request: DeviceRequest,
    opened: Result<(wgpu::Device, wgpu::Queue, bool), ContextError>,
    context: Result<WgpuContext, ContextError>,
    shared: WgpuContext,
)
    requires
        call_ensures(GpuContextConfig::device_request, (&config, &handles.1), request),
        call_ensures(
            WgpuContext::create_device::<wgpu::Device, wgpu::Queue>,
            (&request, Ok((handles.2, handles.3))),
            opened,
        ),
        call_ensures(WgpuContext::new_web, (handles.0, handles.1, opened, report), context),
        call_ensures(
            WgpuContext::from_shared_resources,
            (handles.0, handles.1, Arc::new(handles.2), Arc::new(handles.3), report),
            shared,
        ),
    ensures
        opened is Ok,
        context is Ok,
        shared@.dual_source_blending <==> supported_features(handles.1).contains(
            dual_source_blending_bit(),
        ),
        ({
            let web = context->Ok_0@;
            &&& web.dual_source_blending == shared@.dual_source_blending
            &&& web.instance == handles.0 && shared@.instance == handles.0
            &&& web.adapter == handles.1 && shared@.adapter == handles.1
            &&& web.device == handles.2 && shared@.device == handles.2
            &&& web.queue == handles.3 && shared@.queue == handles.3
        }),
{
}

/// A refused device makes no context, and the reason is passed on.
pub proof fn law_refused_device_makes_no_context<F: Fn(LossReason, String) + Send + 'static>(
    instance: wgpu::Instance,
    adapter: wgpu::Adapter,
    request: DeviceRequest,
    reason: String,
    report: F,
    opened: Result<(wgpu::Device, wgpu::Queue, bool), ContextError>,
    context: Result<WgpuContext, ContextError>,
)
    requires
        call_ensures(
            WgpuContext::create_device::<wgpu::Device, wgpu::Queue>,
            (&request, Err(reason)),
            opened,
        ),
        call_ensures(WgpuContext::new_web, (instance, adapter, opened, report), context),
    ensures
        context == Err::<WgpuContext, ContextError>(ContextError::DeviceCreation(reason)),
{
}

/// A new context is needed exactly when there is none or its device is lost.
pub proof fn law_lost_device_needs_new_context(initialised: bool, flag: bool)
    ensures
        is_needed_if(initialised, flag) <==> !initialised || is_lost_if(initialised, flag),
{
}

/// Creating a context never changes the configuration, and a context that could
/// not be created leaves the current one in place.
pub proof fn law_creation_keeps_the_rest<E>(shared: SharedView, created: Result<WgpuContext, E>)
    ensures
        stored(shared, created).config == shared.config,
        created is Err ==> stored(shared, created) == shared,
        created is Ok ==> stored(shared, created).context == Some(created->Ok_0),
        (outcome(created) is Ok) == (created is Ok),
{
}

/// A new context takes over whatever was held before: what is found from then on
/// is found of the new context alone.
pub proof fn law_new_context_takes_over<E>(shared: SharedView, context: WgpuContext, found: bool)
    ensures
        stored(shared, Ok::<WgpuContext, E>(context)) == stored(
            shared.cleared(),
            Ok::<WgpuContext, E>(context),
        ),
        stored(shared, Ok::<WgpuContext, E>(context)).can_be_lost(found) == can_read(
            context@.device_lost,
            found,
        ),
        stored(shared, Ok::<WgpuContext, E>(context)).can_need_context(found) == can_read(
            context@.device_lost,
            found,
        ),
        stored(shared, Ok::<WgpuContext, E>(context)).supports_dual_source_blending()
            == context@.dual_source_blending,
        stored(shared, Ok::<WgpuContext, E>(context)).instance() == Some(context@.instance),
{
}

/// Once the context is dropped a new one is needed and there is nothing that
/// could be lost, whatever was held before. The configuration stays, and dropping
/// the context again changes nothing.
pub proof fn law_cleared_context_is_gone(shared: SharedView, found: bool)
    ensures
        shared.cleared().can_need_context(found) == found,
        shared.cleared().can_be_lost(found) == !found,
        !shared.cleared().supports_dual_source_blending(),
        shared.cleared().instance() is None,
        shared.cleared().config == shared.config,
        shared.cleared().cleared() == shared.cleared(),
{
}

} // verus!
