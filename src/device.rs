use vstd::prelude::*;
use crate::error::EngineError;

verus! {

/// What the driver reports of one queue family of an adapter.
#[derive(Clone, Copy, Debug, PartialEq, Eq, Structural)]
pub struct QueueFamilyInfo {
    /// The family supports graphics work.
    pub graphics: bool,
    /// The family can present to the target surface.
    pub present: bool,
}

/// What the driver reports of one physical adapter, as plain values.
#[derive(Debug)]
pub struct AdapterInfo {
    pub queue_families: Vec<QueueFamilyInfo>,
    /// Names of the device extensions the adapter offers.
    pub extensions: Vec<Vec<u8>>,
    /// Number of surface formats the adapter supports for the surface.
    pub format_count: usize,
    /// Number of present modes the adapter supports for the surface.
    pub present_mode_count: usize,
}

/// Why an adapter was passed over.
#[derive(Clone, Copy, Debug, PartialEq, Eq, Structural)]
pub enum Unsuitability {
    QueueFamilies,
    DeviceExtensions,
    SwapchainSupport,
}

/// An adapter lacks something the renderer needs.
#[derive(Clone, Copy, Debug, PartialEq, Eq, Structural)]
pub struct SuitabilityError(pub Unsuitability);

/// The queue families the renderer submits to.
#[derive(Clone, Copy, Debug, PartialEq, Eq, Structural)]
pub struct QueueFamilyIndices {
    pub graphics: u32,
    pub present: u32,
}

/// The adapter that was chosen, by its position in enumeration order.
#[derive(Clone, Copy, Debug, PartialEq, Eq, Structural)]
pub struct PhysicalDeviceChoice {
    pub index: usize,
    pub indices: QueueFamilyIndices,
}

pub open spec fn has_graphics(f: Seq<QueueFamilyInfo>) -> bool {
    exists|i: int| 0 <= i < f.len() && f[i].graphics
}

pub open spec fn has_present(f: Seq<QueueFamilyInfo>) -> bool {
    exists|i: int| 0 <= i < f.len() && f[i].present
}

/// `q` names the first graphics family and the first presenting family of `f`.
pub open spec fn indices_for(f: Seq<QueueFamilyInfo>, q: QueueFamilyIndices) -> bool {
    &&& q.graphics < f.len() && f[q.graphics as int].graphics
    &&& forall|j: int| 0 <= j < q.graphics ==> !f[j].graphics
    &&& q.present < f.len() && f[q.present as int].present
    &&& forall|j: int| 0 <= j < q.present ==> !f[j].present
}

pub open spec fn has_name(names: Seq<Vec<u8>>, name: Seq<u8>) -> bool {
    exists|i: int| 0 <= i < names.len() && names[i]@ == name
}

pub open spec fn has_all_names(names: Seq<Vec<u8>>, required: Seq<Vec<u8>>) -> bool {
    forall|j: int| 0 <= j < required.len() ==> has_name(names, required[j]@)
}

pub open spec fn swapchain_adequate(a: AdapterInfo) -> bool {
    a.format_count > 0 && a.present_mode_count > 0
}

/// Every check an adapter must pass to be selected.
pub open spec fn is_suitable(a: AdapterInfo, required: Seq<Vec<u8>>) -> bool {
    &&& has_graphics(a.queue_families@)
    &&& has_present(a.queue_families@)
    &&& has_all_names(a.extensions@, required)
    &&& swapchain_adequate(a)
}

/// The first failing check of an unsuitable adapter, in the order they run.
pub open spec fn first_failure(a: AdapterInfo, required: Seq<Vec<u8>>) -> Unsuitability {
    if !(has_graphics(a.queue_families@) && has_present(a.queue_families@)) {
        Unsuitability::QueueFamilies
    } else if !has_all_names(a.extensions@, required) {
        Unsuitability::DeviceExtensions
    } else {
        Unsuitability::SwapchainSupport
    }
}

/// Byte-wise equality of two names.
pub fn names_equal(a: &Vec<u8>, b: &Vec<u8>) -> (r: bool)
    ensures
        r == (a@ == b@),
{
    if a.len() != b.len() {
        return false;
    }
    let mut i: usize = 0;
    while i < a.len()
        invariant
            a.len() == b.len(),
            i <= a.len(),
            forall|k: int| 0 <= k < i ==> a@[k] == b@[k],
        decreases a.len() - i,
    {
        if a[i] != b[i] {
            return false;
        }
        i = i + 1;
    }
    assert(a@ =~= b@);
    true
}

/// Whether `name` occurs among `names`.
pub fn contains_name(names: &Vec<Vec<u8>>, name: &Vec<u8>) -> (r: bool)
    ensures
        r == has_name(names@, name@),
{
    let mut i: usize = 0;
    while i < names.len()
        invariant
            i <= names.len(),
            forall|k: int| 0 <= k < i ==> names@[k]@ != name@,
        decreases names.len() - i,
    {
        if names_equal(&names[i], name) {
            return true;
        }
        i = i + 1;
    }
    false
}

/// The names as byte sequences.
pub open spec fn names_view(names: Seq<Vec<u8>>) -> Seq<Seq<u8>> {
    names.map_values(|n: Vec<u8>| n@)
}

/// Appends a copy of every name of `src` to `dst`.
pub(crate) fn append_names(dst: &mut Vec<Vec<u8>>, src: &Vec<Vec<u8>>)
    ensures
        names_view(final(dst)@) == names_view(old(dst)@) + names_view(src@),
{
    let ghost start = names_view(dst@);
    let mut i: usize = 0;
    while i < src.len()
        invariant
            i <= src.len(),
            names_view(dst@) == start + names_view(src@).subrange(0, i as int),
        decreases src.len() - i,
    {
        let n = src[i].clone();
        proof {
            assert(n@ == src@[i as int]@);
        }
        let ghost prev = dst@;
        dst.push(n);
        assert(names_view(dst@) =~= names_view(prev).push(src@[i as int]@));
        i = i + 1;
        assert(names_view(dst@) =~= start + names_view(src@).subrange(0, i as int));
    }
    assert(names_view(src@).subrange(0, src@.len() as int) =~= names_view(src@));
}

/// The device extensions to enable: the required ones, then the portability
/// subset when asked for.
pub fn device_extension_names(
    required: &Vec<Vec<u8>>,
    portability_subset: &Vec<u8>,
    with_portability: bool,
) -> (r: Vec<Vec<u8>>)
    ensures
        with_portability ==> names_view(r@) == names_view(required@).push(portability_subset@),
        !with_portability ==> names_view(r@) == names_view(required@),
{
    let mut r: Vec<Vec<u8>> = Vec::new();
    append_names(&mut r, required);
    assert(names_view(r@) =~= names_view(required@));
    if with_portability {
        let ghost before = names_view(r@);
        r.push(portability_subset.clone());
        assert(names_view(r@) =~= before.push(portability_subset@));
    }
    r
}

impl QueueFamilyIndices {
    /// Finds the first graphics-capable family and the first family that can
    /// present to the surface.
    pub fn get(families: &Vec<QueueFamilyInfo>) -> (r: Result<QueueFamilyIndices, SuitabilityError>)
        requires
            families@.len() <= u32::MAX,
        ensures
            r.is_ok() == (has_graphics(families@) && has_present(families@)),
            r matches Ok(q) ==> indices_for(families@, q),
            r is Err ==> r == Err::<QueueFamilyIndices, SuitabilityError>(
                SuitabilityError(Unsuitability::QueueFamilies),
            ),
    {
        let mut graphics: Option<u32> = None;
        let mut present: Option<u32> = None;
        let mut i: usize = 0;
        while i < families.len()
            invariant
                i <= families.len(),
                families@.len() <= u32::MAX,
                graphics matches Some(g) ==> g < i && families@[g as int].graphics && forall|j: int|
                    0 <= j < g ==> !families@[j].graphics,
                graphics is None ==> forall|j: int| 0 <= j < i ==> !families@[j].graphics,
                present matches Some(p) ==> p < i && families@[p as int].present && forall|j: int|
                    0 <= j < p ==> !families@[j].present,
                present is None ==> forall|j: int| 0 <= j < i ==> !families@[j].present,
            decreases families.len() - i,
        {
            if graphics.is_none() && families[i].graphics {
                graphics = Some(i as u32);
            }
            if present.is_none() && families[i].present {
                present = Some(i as u32);
            }
            i = i + 1;
        }
        match (graphics, present) {
            (Some(g), Some(p)) => Ok(QueueFamilyIndices { graphics: g, present: p }),
            _ => Err(SuitabilityError(Unsuitability::QueueFamilies)),
        }
    }

    /// The distinct families to request queues from: one request per family,
    /// graphics first.
    pub fn unique(&self) -> (r: Vec<u32>)
        ensures
            self.graphics == self.present ==> r@ == seq![self.graphics],
            self.graphics != self.present ==> r@ == seq![self.graphics, self.present],
    {
        let mut r: Vec<u32> = Vec::new();
        r.push(self.graphics);
        if self.present != self.graphics {
            r.push(self.present);
        }
        r
    }
}

/// Checks that every required device extension is offered.
pub fn check_physical_device_extensions(available: &Vec<Vec<u8>>, required: &Vec<Vec<u8>>) -> (r:
    Result<(), SuitabilityError>)
    ensures
        r is Ok == has_all_names(available@, required@),
        r is Err ==> r == Err::<(), SuitabilityError>(
            SuitabilityError(Unsuitability::DeviceExtensions),
        ),
{
    let mut j: usize = 0;
    while j < required.len()
        invariant
            j <= required.len(),
            forall|k: int| 0 <= k < j ==> has_name(available@, required@[k]@),
        decreases required.len() - j,
    {
        if !contains_name(available, &required[j]) {
            return Err(SuitabilityError(Unsuitability::DeviceExtensions));
        }
        j = j + 1;
    }
    Ok(())
}

/// Runs every suitability check on one adapter, in order: queue families,
/// device extensions, swapchain support.
pub fn check_physical_device(adapter: &AdapterInfo, required: &Vec<Vec<u8>>) -> (r: Result<
    QueueFamilyIndices,
    SuitabilityError,
>)
    requires
        adapter.queue_families@.len() <= u32::MAX,
    ensures
        r is Ok == is_suitable(*adapter, required@),
        r matches Ok(q) ==> indices_for(adapter.queue_families@, q),
        r matches Err(e) ==> e == SuitabilityError(first_failure(*adapter, required@)),
{
    let indices = QueueFamilyIndices::get(&adapter.queue_families)?;
    check_physical_device_extensions(&adapter.extensions, required)?;
    if adapter.format_count == 0 || adapter.present_mode_count == 0 {
        return Err(SuitabilityError(Unsuitability::SwapchainSupport));
    }
    Ok(indices)
}

/// Picks the first adapter, in enumeration order, that passes every check.
pub fn pick_physical_device(adapters: &Vec<AdapterInfo>, required: &Vec<Vec<u8>>) -> (r: Result<
    PhysicalDeviceChoice,
    EngineError,
>)
    requires
        forall|i: int| 0 <= i < adapters@.len() ==> adapters@[i].queue_families@.len() <= u32::MAX,
    ensures
        r is Ok == exists|i: int| 0 <= i < adapters@.len() && is_suitable(adapters@[i], required@),
        r is Err ==> r == Err::<PhysicalDeviceChoice, EngineError>(EngineError::NoSuitableDevice),
        r matches Ok(c) ==> {
            &&& c.index < adapters@.len()
            &&& is_suitable(adapters@[c.index as int], required@)
            &&& forall|j: int| 0 <= j < c.index ==> !is_suitable(adapters@[j], required@)
            &&& indices_for(adapters@[c.index as int].queue_families@, c.indices)
        },
{
    let mut i: usize = 0;
    while i < adapters.len()
        invariant
            i <= adapters.len(),
            forall|k: int| 0 <= k < adapters@.len() ==> adapters@[k].queue_families@.len() <= u32::MAX,
            forall|j: int| 0 <= j < i ==> !is_suitable(adapters@[j], required@),
        decreases adapters.len() - i,
    {
        match check_physical_device(&adapters[i], required) {
            Ok(indices) => {
                return Ok(PhysicalDeviceChoice { index: i, indices });
            },
            Err(_) => {},
        }
        i = i + 1;
    }
    Err(EngineError::NoSuitableDevice)
}

} // verus!
