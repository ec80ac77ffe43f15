//! Why a GPU context could not be had.

use crate::adapter::{AdapterSummary, Backend};
use crate::pci_id::{show_pci_id, shown_id};
use vstd::prelude::*;

verus! {

/// Why a GPU context could not be had.
#[derive(Debug)]
pub enum ContextError {
    /// There is no adapter at all.
    NoAdapters,
    /// Every adapter was tried, and none could configure the surface.
    NoUsableAdapter,
    /// The browser gave no adapter, for the given reason.
    AdapterRequest(String),
    /// The adapter offers no format for the surface.
    NoSurfaceFormats,
    /// The adapter offers no alpha mode for the surface.
    NoAlphaModes,
    /// The adapter refused to create the device, for the given reason.
    DeviceCreation(String),
    /// The surface could not be configured, for the given reason.
    SurfaceConfiguration(String),
    /// The adapter in use cannot present to the surface of a window.
    IncompatibleSurface { name: String, backend: Backend, device: u32 },
}

/// What `format!("{:?}", s)` writes for a string `s`: the string in quotes, with
/// its special characters escaped.
pub uninterp spec fn debug_form(s: Seq<char>) -> Seq<char>;

/// `format!` with the directive `{:?}` writes a string in its debug form.
#[verifier::external_body]
fn quote(text: &str) -> (quoted: String)
    ensures
        quoted@ == debug_form(text@),
{
    format!("{:?}", text)
}

/// The name of a backend.
pub open spec fn backend_name(backend: Backend) -> Seq<char> {
    match backend {
        Backend::Noop => "Noop"@,
        Backend::Vulkan => "Vulkan"@,
        Backend::Metal => "Metal"@,
        Backend::Dx12 => "Dx12"@,
        Backend::Gl => "Gl"@,
        Backend::BrowserWebGpu => "BrowserWebGpu"@,
    }
}

impl Backend {
    /// The name of the backend.
    pub fn name(&self) -> (name: &'static str)
        ensures
            name@ == backend_name(*self),
    {
        match self {
            Backend::Noop => "Noop",
            Backend::Vulkan => "Vulkan",
            Backend::Metal => "Metal",
            Backend::Dx12 => "Dx12",
            Backend::Gl => "Gl",
            Backend::BrowserWebGpu => "BrowserWebGpu",
        }
    }
}

/// The text that tells a user of an error.
pub open spec fn error_text(error: ContextError) -> Seq<char> {
    match error {
        ContextError::NoAdapters => "No GPU adapters found"@,
        ContextError::NoUsableAdapter =>
            "No GPU adapter found that can configure the display surface"@,
        ContextError::AdapterRequest(reason) => "Failed to request GPU adapter: "@ + reason@,
        ContextError::NoSurfaceFormats => "no compatible surface formats"@,
        ContextError::NoAlphaModes => "no compatible alpha modes"@,
        ContextError::DeviceCreation(reason) => "Failed to create wgpu device: "@ + reason@,
        ContextError::SurfaceConfiguration(reason) => "surface configuration failed: "@ + reason@,
        ContextError::IncompatibleSurface { name, backend, device } => "Adapter "@ + debug_form(
            name@,
        ) + " (backend="@ + backend_name(backend) + ", device="@ + shown_id(device as nat)
            + ") is not compatible with the display surface for this window."@,
    }
}

impl ContextError {
    /// The text that tells a user of the error.
    pub fn message(&self) -> (text: String)
        ensures
            text@ == error_text(*self),
    {
        match self {
            ContextError::NoAdapters => "No GPU adapters found".to_owned(),
            ContextError::NoUsableAdapter =>
                "No GPU adapter found that can configure the display surface".to_owned(),
            ContextError::AdapterRequest(
                reason,
            ) => "Failed to request GPU adapter: ".to_owned().concat(reason.as_str()),
            ContextError::NoSurfaceFormats => "no compatible surface formats".to_owned(),
            ContextError::NoAlphaModes => "no compatible alpha modes".to_owned(),
            ContextError::DeviceCreation(reason) => "Failed to create wgpu device: ".to_owned().concat(
                reason.as_str(),
            ),
            ContextError::SurfaceConfiguration(
                reason,
            ) => "surface configuration failed: ".to_owned().concat(reason.as_str()),
            ContextError::IncompatibleSurface { name, backend, device } => {
                "Adapter ".to_owned().concat(quote(name.as_str()).as_str()).concat(
                    " (backend=",
                ).concat(backend.name()).concat(", device=").concat(
                    show_pci_id(*device).as_str(),
                ).concat(") is not compatible with the display surface for this window.")
            },
        }
    }

    /// That the described adapter cannot present to a surface.
    pub fn incompatible(adapter: &AdapterSummary) -> (error: ContextError)
        ensures
            error == (ContextError::IncompatibleSurface {
                name: adapter.name,
                backend: adapter.backend,
                device: adapter.device,
            }),
    {
        ContextError::IncompatibleSurface {
            name: adapter.name.clone(),
            backend: adapter.backend,
            device: adapter.device,
        }
    }
}

/// A reason that was given for an error is told in full at the end of its text.
pub proof fn law_messages_end_with_the_reason(
    reason: String,
    request: String,
    creation: String,
    configuration: String,
)
    requires
        call_ensures(ContextError::message, (&ContextError::AdapterRequest(reason),), request),
        call_ensures(ContextError::message, (&ContextError::DeviceCreation(reason),), creation),
        call_ensures(
            ContextError::message,
            (&ContextError::SurfaceConfiguration(reason),),
            configuration,
        ),
    ensures
        reason@.is_suffix_of(request@),
        reason@.is_suffix_of(creation@),
        reason@.is_suffix_of(configuration@),
        request@.len() > reason@.len(),
        creation@.len() > reason@.len(),
        configuration@.len() > reason@.len(),
{
    reveal_strlit("Failed to request GPU adapter: ");
    reveal_strlit("Failed to create wgpu device: ");
    reveal_strlit("surface configuration failed: ");
}

/// The reason is all in which the texts of two errors of one kind differ.
pub proof fn law_messages_differ_in_the_reason_alone(
    reason: String,
    other: String,
    requests: (String, String),
    creations: (String, String),
    configurations: (String, String),
)
    requires
        call_ensures(ContextError::message, (&ContextError::AdapterRequest(reason),), requests.0),
        call_ensures(ContextError::message, (&ContextError::AdapterRequest(other),), requests.1),
        call_ensures(ContextError::message, (&ContextError::DeviceCreation(reason),), creations.0),
        call_ensures(ContextError::message, (&ContextError::DeviceCreation(other),), creations.1),
        call_ensures(
            ContextError::message,
            (&ContextError::SurfaceConfiguration(reason),),
            configurations.0,
        ),
        call_ensures(
            ContextError::message,
            (&ContextError::SurfaceConfiguration(other),),
            configurations.1,
        ),
    ensures
        requests.0@.take(requests.0@.len() - reason@.len()) == requests.1@.take(
            requests.1@.len() - other@.len(),
        ),
        creations.0@.take(creations.0@.len() - reason@.len()) == creations.1@.take(
            creations.1@.len() - other@.len(),
        ),
        configurations.0@.take(configurations.0@.len() - reason@.len()) == configurations.1@.take(
            configurations.1@.len() - other@.len(),
        ),
{
}

/// That an adapter cannot present to a surface is told with its name in quotes,
/// its backend and its device identifier, in this order and each in full.
pub proof fn law_incompatible_adapter_is_named(
    adapter: AdapterSummary,
    error: ContextError,
    text: String,
    backend: &str,
    device: String,
)
    requires
        call_ensures(ContextError::incompatible, (&adapter,), error),
        call_ensures(ContextError::message, (&error,), text),
        call_ensures(Backend::name, (&adapter.backend,), backend),
        call_ensures(show_pci_id, (adapter.device,), device),
    ensures
        exists|a: Seq<char>, b: Seq<char>, c: Seq<char>, d: Seq<char>|
            text@ == #[trigger] joined(
                a,
                debug_form(adapter.name@),
                b,
                backend@,
                c,
                device@,
                d,
            ),
{
    assert(text@ == joined(
        "Adapter "@,
        debug_form(adapter.name@),
        " (backend="@,
        backend@,
        ", device="@,
        device@,
        ") is not compatible with the display surface for this window."@,
    ));
}

/// Seven texts one after the other.
pub open spec fn joined(
    a: Seq<char>,
    b: Seq<char>,
    c: Seq<char>,
    d: Seq<char>,
    e: Seq<char>,
    f: Seq<char>,
    g: Seq<char>,
) -> Seq<char> {
    a + b + c + d + e + f + g
}

/// Different backends have different names.
pub proof fn law_backend_names_differ(first: Backend, second: Backend, a: &str, b: &str)
    requires
        call_ensures(Backend::name, (&first,), a),
        call_ensures(Backend::name, (&second,), b),
    ensures
        a@ == b@ <==> first == second,
{
    reveal_strlit("Noop");
    reveal_strlit("Vulkan");
    reveal_strlit("Metal");
    reveal_strlit("Dx12");
    reveal_strlit("Gl");
    reveal_strlit("BrowserWebGpu");
    assert("Noop"@.len() == 4 && "Dx12"@.len() == 4 && "Noop"@[0] != "Dx12"@[0]);
    assert("Vulkan"@.len() == 6 && "Metal"@.len() == 5 && "Gl"@.len() == 2);
    assert("BrowserWebGpu"@.len() == 13);
}

} // verus!
