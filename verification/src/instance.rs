//! The instance through which adapters are found.

use crate::adapter::Backend;
use vstd::prelude::*;

verus! {

/// How the flags, the backend options and the memory budget thresholds of an
/// instance are set.
#[derive(Clone, Copy, Debug, PartialEq, Eq, Structural)]
pub enum InstanceSettings {
    /// Each as `wgpu` has it by default.
    Defaults,
}

/// An instance to be created.
#[derive(Debug)]
pub struct InstanceRequest {
    /// The backends that are enabled.
    pub backends: Vec<Backend>,
    /// Whether the instance is given the display that it renders to.
    pub has_display: bool,
    pub settings: InstanceSettings,
}

impl InstanceRequest {
    /// Whether this asks for the instance for a desktop.
    pub open spec fn is_for_desktop(self) -> bool {
        &&& self.backends@ == seq![Backend::Vulkan, Backend::Gl]
        &&& self.has_display
        &&& self.settings == InstanceSettings::Defaults
    }

    /// Whether this asks for the instance for a browser.
    pub open spec fn is_for_browser(self) -> bool {
        &&& self.backends@ == seq![Backend::BrowserWebGpu, Backend::Gl]
        &&& !self.has_display
        &&& self.settings == InstanceSettings::Defaults
    }

    /// The instance for a desktop.
    pub fn desktop() -> (request: Self)
        ensures
            request.is_for_desktop(),
    {
        InstanceRequest {
            backends: vec![Backend::Vulkan, Backend::Gl],
            has_display: true,
            settings: InstanceSettings::Defaults,
        }
    }

    /// The instance for a browser.
    pub fn browser() -> (request: Self)
        ensures
            request.is_for_browser(),
    {
        InstanceRequest {
            backends: vec![Backend::BrowserWebGpu, Backend::Gl],
            has_display: false,
            settings: InstanceSettings::Defaults,
        }
    }
}

/// The instance for a desktop enables Vulkan and GL and is given a display; the
/// one for a browser enables WebGPU and GL and is given none.
pub proof fn law_enabled_backends(
    desktop: InstanceRequest,
    browser: InstanceRequest,
    backend: Backend,
)
    requires
        call_ensures(InstanceRequest::desktop, (), desktop),
        call_ensures(InstanceRequest::browser, (), browser),
    ensures
        desktop.backends@.contains(backend) <==> backend is Vulkan || backend is Gl,
        browser.backends@.contains(backend) <==> backend is BrowserWebGpu || backend is Gl,
        desktop.has_display,
        !browser.has_display,
{
    assert(desktop.backends@[0] is Vulkan && desktop.backends@[1] is Gl);
    assert(browser.backends@[0] is BrowserWebGpu && browser.backends@[1] is Gl);
}

} // verus!
