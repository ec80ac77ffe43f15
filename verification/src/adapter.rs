//! What is known of a GPU adapter, and the order in which adapters are tried.

use crate::handles::description;
use vstd::prelude::*;
use wgpu::{Backend as OutsideBackend, DeviceType as OutsideType};

verus! {

/// What kind of device an adapter drives.
#[derive(Clone, Copy, Debug, PartialEq, Eq, Structural)]
pub enum DeviceType {
    Other,
    IntegratedGpu,
    DiscreteGpu,
    VirtualGpu,
    Cpu,
}

/// The graphics interface through which an adapter is driven.
#[derive(Clone, Copy, Debug, PartialEq, Eq, Structural)]
pub enum Backend {
    Noop,
    Vulkan,
    Metal,
    Dx12,
    Gl,
    BrowserWebGpu,
}

/// The description that an adapter gives of itself, as far as it bears on the
/// choice between adapters.
#[derive(Debug)]
pub struct AdapterSummary {
    pub name: String,
    /// The PCI vendor identifier.
    pub vendor: u32,
    /// The PCI device identifier, or zero where the backend does not know it.
    pub device: u32,
    pub device_type: DeviceType,
    pub backend: Backend,
}

/// The part of a `wgpu::AdapterInfo` that bears on the choice between adapters:
/// its fields and variants of the same names.
pub uninterp spec fn summary(info: wgpu::AdapterInfo) -> AdapterSummary;

/// Takes the fields of a `wgpu::AdapterInfo`, each under its own name, and tells
/// the variants of `wgpu::DeviceType` and `wgpu::Backend` apart.
#[verifier::external_body]
fn summarize(info: &wgpu::AdapterInfo) -> (r: AdapterSummary)
    ensures
        r == summary(*info),
{
    let device_type = match info.device_type {
        OutsideType::Other => DeviceType::Other, OutsideType::Cpu => DeviceType::Cpu,
        OutsideType::IntegratedGpu => DeviceType::IntegratedGpu,
        OutsideType::DiscreteGpu => DeviceType::DiscreteGpu,
        OutsideType::VirtualGpu => DeviceType::VirtualGpu,
    };
    let backend = match info.backend {
        OutsideBackend::Noop => Backend::Noop, OutsideBackend::Vulkan => Backend::Vulkan,
        OutsideBackend::Metal => Backend::Metal, OutsideBackend::Dx12 => Backend::Dx12,
        OutsideBackend::Gl => Backend::Gl,
        OutsideBackend::BrowserWebGpu => Backend::BrowserWebGpu,
    };
    let (name, vendor, device) = (info.name.clone(), info.vendor, info.device);
    AdapterSummary { name, vendor, device, device_type, backend }
}

impl AdapterSummary {
    /// The part of a description that bears on the choice between adapters.
    pub fn of_info(info: &wgpu::AdapterInfo) -> (r: AdapterSummary)
        ensures
            r == summary(*info),
    {
        summarize(info)
    }

    /// What an adapter says of itself, as far as it bears on the choice between
    /// adapters.
    pub fn of(adapter: &wgpu::Adapter) -> (r: AdapterSummary)
        ensures
            r == summary(description(*adapter)),
    {
        Self::of_info(&adapter.get_info())
    }
}

/// What the adapters of a list say of themselves.
pub open spec fn summaries(adapters: Seq<wgpu::Adapter>) -> Seq<AdapterSummary> {
    adapters.map_values(|adapter: wgpu::Adapter| summary(description(adapter)))
}

/// The GPU on which the display server is rendering.
#[derive(Clone, Copy, Debug, PartialEq, Eq, Structural)]
pub struct CompositorGpuHint {
    pub vendor_id: u32,
    pub device_id: u32,
}

/// The rank of an adapter, in four tiers, the weightiest first. Smaller is
/// better in each.
pub type Priority = (u8, u8, u8, u8);

/// Whether the user asked for this very device. Some backends report device
/// zero for every adapter, so zero matches nothing.
pub open spec fn matches_override(info: AdapterSummary, device_id: Option<u32>) -> bool {
    info.device != 0 && device_id == Some(info.device)
}

/// Whether the display server is rendering on this device.
pub open spec fn matches_compositor(
    info: AdapterSummary,
    compositor_gpu: Option<CompositorGpuHint>,
) -> bool {
    &&& info.device != 0
    &&& compositor_gpu matches Some(hint)
    &&& hint.vendor_id == info.vendor
    &&& hint.device_id == info.device
}

/// Discrete before integrated before other before virtual before software.
pub open spec fn type_rank(device_type: DeviceType) -> u8 {
    match device_type {
        DeviceType::DiscreteGpu => 0,
        DeviceType::IntegratedGpu => 1,
        DeviceType::Other => 2,
        DeviceType::VirtualGpu => 3,
        DeviceType::Cpu => 4,
    }
}

/// The modern native interfaces before all others.
pub open spec fn backend_rank(backend: Backend) -> u8 {
    if backend is Vulkan || backend is Metal || backend is Dx12 {
        0
    } else {
        1
    }
}

/// The rank of an adapter: the user's choice, then the display server's, then
/// the kind of device, then the backend.
pub open spec fn priority(
    info: AdapterSummary,
    device_id: Option<u32>,
    compositor_gpu: Option<CompositorGpuHint>,
) -> Priority {
    (
        if matches_override(info, device_id) {
            0u8
        } else {
            1u8
        },
        if matches_compositor(info, compositor_gpu) {
            0u8
        } else {
            1u8
        },
        type_rank(info.device_type),
        backend_rank(info.backend),
    )
}

/// Whether rank `a` is strictly better than rank `b`: it is smaller in the
/// first tier in which the two differ.
pub open spec fn outranks(a: Priority, b: Priority) -> bool {
    ||| a.0 < b.0
    ||| a.0 == b.0 && a.1 < b.1
    ||| a.0 == b.0 && a.1 == b.1 && a.2 < b.2
    ||| a.0 == b.0 && a.1 == b.1 && a.2 == b.2 && a.3 < b.3
}

/// The ranks of a list of adapters.
pub open spec fn priorities(
    infos: Seq<AdapterSummary>,
    device_id: Option<u32>,
    compositor_gpu: Option<CompositorGpuHint>,
) -> Seq<Priority> {
    infos.map_values(|info: AdapterSummary| priority(info, device_id, compositor_gpu))
}

/// Whether position `a` is to be tried before position `b`: its rank is
/// better, or the ranks are equal and it comes first in the list.
pub open spec fn tried_before(ranks: Seq<Priority>, a: int, b: int) -> bool {
    outranks(ranks[a], ranks[b]) || (ranks[a] == ranks[b] && a < b)
}

/// Whether `order` lists every position of `ranks` exactly once, each before
/// those that it is to be tried before.
pub open spec fn is_ranking(order: Seq<usize>, ranks: Seq<Priority>) -> bool {
    &&& order.len() == ranks.len()
    &&& forall|i: int| 0 <= i < order.len() ==> 0 <= #[trigger] order[i] < ranks.len()
    &&& forall|k: usize| k < ranks.len() ==> #[trigger] order.contains(k)
    &&& forall|i: int, j: int|
        #![trigger order[i], order[j]]
        0 <= i < j < order.len() ==> tried_before(ranks, order[i] as int, order[j] as int)
}

/// The rank of an adapter.
pub fn adapter_priority(
    info: &AdapterSummary,
    device_id: Option<u32>,
    compositor_gpu: Option<CompositorGpuHint>,
) -> (rank: Priority)
    ensures
        rank == priority(*info, device_id, compositor_gpu),
{
    let device_known = info.device != 0;
    let user_override: u8 = match device_id {
        Some(id) if device_known && info.device == id => 0,
        _ => 1,
    };
    let compositor_match: u8 = match compositor_gpu {
        Some(hint) if device_known && info.vendor == hint.vendor_id && info.device
            == hint.device_id => 0,
        _ => 1,
    };
    let type_priority: u8 = match info.device_type {
        DeviceType::DiscreteGpu => 0,
        DeviceType::IntegratedGpu => 1,
        DeviceType::Other => 2,
        DeviceType::VirtualGpu => 3,
        DeviceType::Cpu => 4,
    };
    let backend_priority: u8 = match info.backend {
        Backend::Vulkan => 0,
        Backend::Metal => 0,
        Backend::Dx12 => 0,
        _ => 1,
    };
    (user_override, compositor_match, type_priority, backend_priority)
}

fn is_better(a: Priority, b: Priority) -> (r: bool)
    ensures
        r == outranks(a, b),
{
    if a.0 != b.0 {
        a.0 < b.0
    } else if a.1 != b.1 {
        a.1 < b.1
    } else if a.2 != b.2 {
        a.2 < b.2
    } else {
        a.3 < b.3
    }
}

/// The positions of `ranks` in the order in which they are to be tried. Equal
/// ranks keep the order of the list.
fn sort_by_rank(ranks: &Vec<Priority>) -> (order: Vec<usize>)
    ensures
        is_ranking(order@, ranks@),
{
    let mut order: Vec<usize> = Vec::new();
    let n: usize = ranks.len();
    let mut next: usize = 0;
    while next < n
        invariant
            n == ranks@.len(),
            next <= n,
            is_ranking(order@, ranks@.take(next as int)),
        decreases n - next,
    {
        let rank: Priority = ranks[next];
        let mut at: usize = order.len();
        let ghost seen = ranks@.take(next as int);
        while at > 0 && is_better(rank, ranks[order[at - 1]])
            invariant
                at <= order@.len(),
                next < n,
                n == ranks@.len(),
                rank == ranks@[next as int],
                seen == ranks@.take(next as int),
                is_ranking(order@, seen),
                forall|i: int|
                    at <= i < order@.len() ==> outranks(rank, ranks@[#[trigger] order@[i] as int]),
            decreases at,
        {
            at -= 1;
        }
        let ghost before = order@;
        order.insert(at, next);
        proof {
            lemma_insert_keeps_ranking(before, ranks@, next, at as int);
        }
        next += 1;
    }
    assert(ranks@.take(n as int) == ranks@);
    order
}

proof fn lemma_insert_keeps_ranking(before: Seq<usize>, ranks: Seq<Priority>, next: usize, at: int)
    requires
        next < ranks.len(),
        is_ranking(before, ranks.take(next as int)),
        0 <= at <= before.len(),
        at > 0 ==> !outranks(ranks[next as int], ranks[before[at - 1] as int]),
        forall|i: int|
            at <= i < before.len() ==> outranks(
                ranks[next as int],
                ranks[#[trigger] before[i] as int],
            ),
    ensures
        is_ranking(before.insert(at, next), ranks.take(next + 1)),
{
    let seen = ranks.take(next as int);
    let grown = ranks.take(next + 1);
    let after = before.insert(at, next);
    assert forall|k: usize| k < grown.len() implies #[trigger] after.contains(k) by {
        if k == next {
            assert(after[at] == next);
        } else {
            assert(before.contains(k));
            let m = choose|m: int| 0 <= m < before.len() && before[m] == k;
            assert(after[if m < at {
                m
            } else {
                m + 1
            }] == k);
        }
    }
    assert forall|i: int, j: int|
        #![trigger after[i], after[j]]
        0 <= i < j < after.len() implies tried_before(grown, after[i] as int, after[j] as int) by {
        let a = if i < at {
            i
        } else {
            i - 1
        };
        let b = if j < at {
            j
        } else {
            j - 1
        };
        if i != at && j != at {
            assert(after[i] == before[a] && after[j] == before[b]);
            assert(tried_before(seen, before[a] as int, before[b] as int));
        } else if i == at {
            assert(after[j] == before[b]);
        } else {
            assert(after[i] == before[i]);
            if i < at - 1 {
                assert(tried_before(seen, before[i] as int, before[at - 1] as int));
            }
            assert(seen[before[i] as int] == ranks[before[i] as int]);
        }
    }
}

/// The positions of `infos` in the order in which the adapters are to be tried.
pub fn rank_adapters(
    infos: &Vec<AdapterSummary>,
    device_id: Option<u32>,
    compositor_gpu: Option<CompositorGpuHint>,
) -> (order: Vec<usize>)
    ensures
        is_ranking(order@, priorities(infos@, device_id, compositor_gpu)),
{
    let mut ranks: Vec<Priority> = Vec::new();
    let n: usize = infos.len();
    let mut next: usize = 0;
    while next < n
        invariant
            n == infos@.len(),
            next <= n,
            ranks@ == priorities(infos@, device_id, compositor_gpu).take(next as int),
        decreases n - next,
    {
        ranks.push(adapter_priority(&infos[next], device_id, compositor_gpu));
        next += 1;
    }
    assert(ranks@ == priorities(infos@, device_id, compositor_gpu));
    sort_by_rank(&ranks)
}

/// There is only one order in which a list of ranks can be tried.
pub proof fn law_ranking_is_unique(first: Seq<usize>, second: Seq<usize>, ranks: Seq<Priority>)
    requires
        is_ranking(first, ranks),
        is_ranking(second, ranks),
    ensures
        first == second,
{
    if first != second {
        assert(exists|i: int| 0 <= i < first.len() && first[i] != second[i]) by {
            assert(!(first =~= second));
        }
        let p = lemma_first_difference(first, second);
        let a = first[p];
        let b = second[p];
        assert(second.contains(a) && first.contains(b));
        let q = choose|q: int| 0 <= q < second.len() && second[q] == a;
        let r = choose|r: int| 0 <= r < first.len() && first[r] == b;
        if q < p {
            assert(first[q] == a);
            assert(tried_before(ranks, first[q] as int, first[p] as int));
        } else if r < p {
            assert(second[r] == b);
            assert(tried_before(ranks, second[r] as int, second[p] as int));
        } else {
            assert(tried_before(ranks, second[p] as int, second[q] as int));
            assert(tried_before(ranks, first[p] as int, first[r] as int));
        }
        assert(false);
    }
}

proof fn lemma_first_difference(first: Seq<usize>, second: Seq<usize>) -> (p: int)
    requires
        first.len() == second.len(),
        exists|i: int| 0 <= i < first.len() && first[i] != second[i],
    ensures
        0 <= p < first.len(),
        first[p] != second[p],
        forall|i: int| 0 <= i < p ==> first[i] == second[i],
    decreases first.len(),
{
    let n = first.len() - 1;
    if exists|i: int| 0 <= i < n && first[i] != second[i] {
        let i = choose|i: int| 0 <= i < n && first[i] != second[i];
        assert(first.drop_last()[i] != second.drop_last()[i]);
        let p = lemma_first_difference(first.drop_last(), second.drop_last());
        assert forall|i: int| 0 <= i < p implies first[i] == second[i] by {
            assert(first.drop_last()[i] == second.drop_last()[i]);
        }
        p
    } else {
        n
    }
}

/// An adapter is tried before another for the first of these reasons that tells
/// them apart: the user asked for its device; the display server is rendering on
/// it; its kind is the better one, discrete before integrated before other before
/// virtual before software; it is driven through Vulkan, Metal or DX12; it comes
/// first in the list.
pub proof fn law_reasons_to_try_an_adapter_first(
    infos: Vec<AdapterSummary>,
    device_id: Option<u32>,
    compositor_gpu: Option<CompositorGpuHint>,
    order: Vec<usize>,
    i: int,
    j: int,
)
    requires
        call_ensures(rank_adapters, (&infos, device_id, compositor_gpu), order),
        0 <= i < j < order@.len(),
    ensures
        ({
            let a = infos@[order@[i] as int];
            let b = infos@[order@[j] as int];
            let a_asked = a.device > 0 && device_id == Some(a.device);
            let b_asked = b.device > 0 && device_id == Some(b.device);
            let a_shown = a.device > 0 && compositor_gpu == Some(
                CompositorGpuHint { vendor_id: a.vendor, device_id: a.device },
            );
            let b_shown = b.device > 0 && compositor_gpu == Some(
                CompositorGpuHint { vendor_id: b.vendor, device_id: b.device },
            );
            let kinds = seq![
                DeviceType::DiscreteGpu,
                DeviceType::IntegratedGpu,
                DeviceType::Other,
                DeviceType::VirtualGpu,
                DeviceType::Cpu,
            ];
            let modern = seq![Backend::Vulkan, Backend::Metal, Backend::Dx12];
            &&& b_asked ==> a_asked
            &&& a_asked == b_asked ==> b_shown ==> a_shown
            &&& a_asked == b_asked && a_shown == b_shown ==> forall|k: int, l: int|
                #![trigger kinds[k], kinds[l]]
                0 <= k < kinds.len() && 0 <= l < kinds.len() && kinds[k] == a.device_type
                    && kinds[l] == b.device_type ==> k <= l
            &&& a_asked == b_asked && a_shown == b_shown && a.device_type == b.device_type
                ==> modern.contains(b.backend) ==> modern.contains(a.backend)
            &&& a_asked == b_asked && a_shown == b_shown && a.device_type == b.device_type
                && modern.contains(a.backend) == modern.contains(b.backend) ==> order@[i]
                < order@[j]
        }),
{
    let ranks = priorities(infos@, device_id, compositor_gpu);
    let a = infos@[order@[i] as int];
    let b = infos@[order@[j] as int];
    assert(tried_before(ranks, order@[i] as int, order@[j] as int));
    lemma_modern_backends(a.backend);
    lemma_modern_backends(b.backend);
}

proof fn lemma_modern_backends(backend: Backend)
    ensures
        seq![Backend::Vulkan, Backend::Metal, Backend::Dx12].contains(backend) <==> backend_rank(
            backend,
        ) == 0,
{
    let modern = seq![Backend::Vulkan, Backend::Metal, Backend::Dx12];
    assert(modern[0] == Backend::Vulkan && modern[1] == Backend::Metal && modern[2]
        == Backend::Dx12);
}

/// Every adapter is tried, and none twice.
pub proof fn law_every_adapter_is_tried_once(
    infos: Vec<AdapterSummary>,
    device_id: Option<u32>,
    compositor_gpu: Option<CompositorGpuHint>,
    order: Vec<usize>,
    adapter: usize,
)
    requires
        call_ensures(rank_adapters, (&infos, device_id, compositor_gpu), order),
    ensures
        order@.len() == infos@.len(),
        order@.contains(adapter) <==> adapter < infos@.len(),
        order@.no_duplicates(),
{
    law_ranking_has_no_duplicates(order@, priorities(infos@, device_id, compositor_gpu));
}

/// The rank of an adapter does not depend on its name, nor on its vendor except
/// where the display server's GPU is known.
pub proof fn law_names_do_not_matter(
    info: AdapterSummary,
    other: AdapterSummary,
    device_id: Option<u32>,
    compositor_gpu: Option<CompositorGpuHint>,
    rank: Priority,
    other_rank: Priority,
)
    requires
        other.device == info.device,
        other.device_type == info.device_type,
        other.backend == info.backend,
        compositor_gpu is None || other.vendor == info.vendor,
        call_ensures(adapter_priority, (&info, device_id, compositor_gpu), rank),
        call_ensures(adapter_priority, (&other, device_id, compositor_gpu), other_rank),
    ensures
        rank == other_rank,
{
}

/// Of any two different adapters of a list exactly one is to be tried before
/// the other.
pub proof fn law_order_is_total(ranks: Seq<Priority>, a: int, b: int)
    requires
        a != b,
    ensures
        tried_before(ranks, a, b) != tried_before(ranks, b, a),
{
}

/// A device identifier of zero is never taken for the user's choice or for the
/// display server's GPU.
pub proof fn law_unknown_device_never_matches(
    info: AdapterSummary,
    device_id: Option<u32>,
    compositor_gpu: Option<CompositorGpuHint>,
)
    requires
        info.device == 0,
    ensures
        priority(info, device_id, compositor_gpu) == (
            1u8,
            1u8,
            type_rank(info.device_type),
            backend_rank(info.backend),
        ),
{
}

/// An adapter that the user asked for outranks every adapter that they did not
/// ask for, whatever else is known of the two.
pub proof fn law_override_outranks_all(
    chosen: AdapterSummary,
    other: AdapterSummary,
    device_id: Option<u32>,
    compositor_gpu: Option<CompositorGpuHint>,
)
    requires
        matches_override(chosen, device_id),
        !matches_override(other, device_id),
    ensures
        outranks(
            priority(chosen, device_id, compositor_gpu),
            priority(other, device_id, compositor_gpu),
        ),
{
}

/// Where the user's choice does not tell two adapters apart, the one that the
/// display server is rendering on outranks one that it is not.
pub proof fn law_compositor_outranks_type_and_backend(
    chosen: AdapterSummary,
    other: AdapterSummary,
    device_id: Option<u32>,
    compositor_gpu: Option<CompositorGpuHint>,
)
    requires
        matches_override(chosen, device_id) == matches_override(other, device_id),
        matches_compositor(chosen, compositor_gpu),
        !matches_compositor(other, compositor_gpu),
    ensures
        outranks(
            priority(chosen, device_id, compositor_gpu),
            priority(other, device_id, compositor_gpu),
        ),
{
}

/// Where neither choice tells two adapters apart, the kind of device decides,
/// and after it the backend.
pub proof fn law_type_outranks_backend(
    better: AdapterSummary,
    other: AdapterSummary,
    device_id: Option<u32>,
    compositor_gpu: Option<CompositorGpuHint>,
)
    requires
        matches_override(better, device_id) == matches_override(other, device_id),
        matches_compositor(better, compositor_gpu) == matches_compositor(other, compositor_gpu),
    ensures
        outranks(
            priority(better, device_id, compositor_gpu),
            priority(other, device_id, compositor_gpu),
        ) <==> {
            ||| type_rank(better.device_type) < type_rank(other.device_type)
            ||| better.device_type == other.device_type && backend_rank(better.backend)
                < backend_rank(other.backend)
        },
{
}

/// If the user asked for some adapter of the list, one that they asked for is
/// tried first.
pub proof fn law_override_is_tried_first(
    infos: Seq<AdapterSummary>,
    order: Seq<usize>,
    device_id: Option<u32>,
    compositor_gpu: Option<CompositorGpuHint>,
    chosen: usize,
)
    requires
        is_ranking(order, priorities(infos, device_id, compositor_gpu)),
        chosen < infos.len(),
        matches_override(infos[chosen as int], device_id),
    ensures
        matches_override(infos[order[0] as int], device_id),
{
    let ranks = priorities(infos, device_id, compositor_gpu);
    assert(order.contains(chosen));
    let at = choose|at: int| 0 <= at < order.len() && order[at] == chosen;
    if at > 0 {
        assert(tried_before(ranks, order[0] as int, order[at] as int));
    }
}

/// No adapter is tried twice.
pub proof fn law_ranking_has_no_duplicates(order: Seq<usize>, ranks: Seq<Priority>)
    requires
        is_ranking(order, ranks),
    ensures
        order.no_duplicates(),
{
    assert forall|i: int, j: int|
        0 <= i < order.len() && 0 <= j < order.len() && i != j implies order[i] != order[j] by {
        if i < j {
            assert(tried_before(ranks, order[i] as int, order[j] as int));
        } else {
            assert(tried_before(ranks, order[j] as int, order[i] as int));
        }
    }
}

} // verus!
