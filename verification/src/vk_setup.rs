//! The decisions taken while setting up the Vulkan instance and device:
//! which physical device is used, which queues are asked for, the bookkeeping
//! of the extension and layer names, and how validation messages are sorted
//! and laid out. The driver calls themselves are made by the program around
//! the library.
use vstd::prelude::*;

use crate::text::{chars_of, replace_chars, replaced, string_from_chars};
use crate::vk_api::{graphics_bit, queue_supports_graphics};

verus! {

/// Major version of the Vulkan API asked for by default.
pub const DEFAULT_VK_API_VERSION_MAJOR: u32 = 1;

/// Minor version of the Vulkan API asked for by default.
pub const DEFAULT_VK_API_VERSION_MINOR: u32 = 3;

/// The name of the Khronos validation layer, NUL-terminated.
pub const KHR_VALIDATION: &'static str = "VK_LAYER_KHRONOS_validation\0";

/// The name of the debug utilities extension, NUL-terminated.
pub const EXT_DEBUG_UTILS: &'static str = "VK_EXT_debug_utils\0";

/// The name of the surface extension, NUL-terminated.
pub const KHR_SURFACE: &'static str = "VK_KHR_surface\0";

/// The name of the Win32 surface extension, NUL-terminated.
pub const KHR_WIN32_SURFACE: &'static str = "VK_KHR_win32_surface\0";

/// The name of the swapchain extension, NUL-terminated.
pub const KHR_SWAPCHAIN: &'static str = "VK_KHR_swapchain\0";

/// The addresses of the names the editor enables by default: each field is
/// the address of the first byte of the constant of that name.
pub struct DefaultNameAddresses {
    /// `KHR_VALIDATION`.
    pub validation_layer: usize,
    /// `KHR_WIN32_SURFACE`.
    pub win32_surface: usize,
    /// `KHR_SURFACE`.
    pub surface: usize,
    /// `EXT_DEBUG_UTILS`.
    pub debug_utils: usize,
    /// `KHR_SWAPCHAIN`.
    pub swapchain: usize,
}

/// The device chosen from the configured device number: that device when
/// there is one with that number, none otherwise.
pub fn gpu_device_custom(gpu_id: u64, device_count: usize) -> (chosen: Option<usize>)
    ensures
        gpu_id < device_count ==> chosen == Some(gpu_id as usize),
        gpu_id >= device_count ==> chosen is None,
{
    if gpu_id < device_count as u64 {
        Some(gpu_id as usize)
    } else {
        None
    }
}

/// Some family of the device can present to a window.
pub open spec fn presents(families: Seq<bool>) -> bool {
    exists|j: int| 0 <= j < families.len() && families[j]
}

/// The last of the first `k` devices that has a family able to present.
pub open spec fn last_presenting(support: Seq<Seq<bool>>, k: nat) -> Option<usize>
    decreases k,
{
    if k == 0 {
        None
    } else if presents(support[k - 1]) {
        Some((k - 1) as usize)
    } else {
        last_presenting(support, (k - 1) as nat)
    }
}

fn any_presents(families: &Vec<bool>) -> (b: bool)
    ensures
        b == presents(families@),
{
    let mut j: usize = 0;
    while j < families.len()
        invariant
            j <= families.len(),
            forall|t: int| 0 <= t < j ==> !families@[t],
        decreases families.len() - j,
    {
        if families[j] {
            return true;
        }
        j += 1;
    }
    false
}

/// The device chosen by the window system: `support[i][j]` tells whether
/// family `j` of device `i` can present to a window. The last device with
/// such a family is chosen; when there is none, or when no window-system
/// loader is there to ask, the device chosen before (`current`) stays.
pub fn gpu_device_auto(support: &Vec<Vec<bool>>, current: Option<usize>, loader_ready: bool) -> (chosen: Option<usize>)
    ensures
        !loader_ready ==> chosen == current,
        loader_ready ==> chosen == match last_presenting(support.deep_view(), support@.len()) {
            Some(i) => Some(i),
            None => current,
        },
{
    if !loader_ready {
        return current;
    }
    let mut chosen = current;
    let mut i: usize = 0;
    while i < support.len()
        invariant
            i <= support.len(),
            chosen == match last_presenting(support.deep_view(), i as nat) {
                Some(d) => Some(d),
                None => current,
            },
        decreases support.len() - i,
    {
        let families = &support[i];
        assert(support.deep_view()[i as int] =~= families@);
        if any_presents(families) {
            chosen = Some(i);
        }
        i += 1;
    }
    chosen
}

/// A request for queues of one family of the device.
#[derive(Clone, Copy, PartialEq, Eq, Structural, Debug)]
pub struct QueueRequest {
    pub family_index: u32,
    pub queue_count: u32,
}

/// The requests made for the first `k` families, given the raw flags of all
/// `n` families: each family that supports graphics is asked for `n` queues
/// (index and count cut to 32 bits).
pub open spec fn queue_requests_upto(flags: Seq<u32>, k: nat) -> Seq<QueueRequest>
    decreases k,
{
    if k == 0 {
        seq![]
    } else {
        let before = queue_requests_upto(flags, (k - 1) as nat);
        if flags[k - 1] & graphics_bit() == graphics_bit() {
            before.push(
                QueueRequest { family_index: (k - 1) as u32, queue_count: flags.len() as u32 },
            )
        } else {
            before
        }
    }
}

/// The queues asked for when the device is created, from the raw flags of its
/// queue families.
pub fn graphics_queue_plan(family_flags: &Vec<u32>) -> (plan: Vec<QueueRequest>)
    ensures
        plan@ == queue_requests_upto(family_flags@, family_flags@.len()),
{
    let n = family_flags.len();
    let mut plan: Vec<QueueRequest> = Vec::new();
    let mut i: usize = 0;
    while i < n
        invariant
            i <= n,
            n == family_flags@.len(),
            plan@ == queue_requests_upto(family_flags@, i as nat),
        decreases n - i,
    {
        if queue_supports_graphics(family_flags[i]) {
            plan.push(QueueRequest { family_index: i as u32, queue_count: n as u32 });
        }
        i += 1;
    }
    plan
}

/// Whether a name (by its address) is in the list.
pub(crate) fn name_enabled(names: &Vec<usize>, name: usize) -> (found: bool)
    ensures
        found == names@.contains(name),
{
    let mut i: usize = 0;
    while i < names.len()
        invariant
            i <= names.len(),
            forall|t: int| 0 <= t < i ==> names@[t] != name,
        decreases names.len() - i,
    {
        if names[i] == name {
            assert(names@[i as int] == name);
            return true;
        }
        i += 1;
    }
    false
}

/// Where validation messages go: rated and handed to the log system, or laid
/// out and printed on the console.
#[derive(Clone, Copy, PartialEq, Eq, Structural, Debug)]
pub enum DebugCallback {
    ToLogSystem,
    ToConsole,
}

/// How the validation layer rates a message.
#[derive(Clone, Copy, PartialEq, Eq, Structural, Debug)]
pub enum DebugSeverity {
    Info,
    Warning,
    Error,
    /// Any other rating (verbose messages among them): nothing is logged for it.
    Unrated,
}

/// The rating of a message from the raw bits of its severity flags: info is
/// `0x10`, warning `0x100`, error `0x1000`.
pub fn debug_severity(raw: u32) -> (s: DebugSeverity)
    ensures
        raw == 0x10 ==> s == DebugSeverity::Info,
        raw == 0x100 ==> s == DebugSeverity::Warning,
        raw == 0x1000 ==> s == DebugSeverity::Error,
        raw != 0x10 && raw != 0x100 && raw != 0x1000 ==> s == DebugSeverity::Unrated,
{
    if raw == 0x10 {
        DebugSeverity::Info
    } else if raw == 0x100 {
        DebugSeverity::Warning
    } else if raw == 0x1000 {
        DebugSeverity::Error
    } else {
        DebugSeverity::Unrated
    }
}

/// A validation message laid out for reading: a line break after each colon,
/// one before "The Vulkan spec states", and none inside "https:".
pub open spec fn debug_message_layout(m: Seq<char>) -> Seq<char> {
    let a = replaced(m, ":"@, ":\n"@);
    let b = replaced(a, ". The Vulkan spec states"@, ".\n The Vulkan spec states"@);
    replaced(b, "https:\n"@, "https:"@)
}

/// Lays out a validation message for reading.
pub fn format_debug_message(message: &str) -> (r: String)
    ensures
        r@ == debug_message_layout(message@),
{
    proof {
        reveal_strlit(":");
        reveal_strlit(". The Vulkan spec states");
        reveal_strlit("https:\n");
    }
    let m = chars_of(message);
    let colon = chars_of(":");
    let colon_nl = chars_of(":\n");
    let a = replace_chars(&m, &colon, &colon_nl);
    let spec_from = chars_of(". The Vulkan spec states");
    let spec_to = chars_of(".\n The Vulkan spec states");
    let b = replace_chars(&a, &spec_from, &spec_to);
    let link_from = chars_of("https:\n");
    let link_to = chars_of("https:");
    let c = replace_chars(&b, &link_from, &link_to);
    string_from_chars(&c)
}

proof fn lemma_last_presenting_upto(support: Seq<Seq<bool>>, k: nat)
    requires
        k <= support.len(),
        support.len() <= usize::MAX,
    ensures
        last_presenting(support, k) matches Some(d) ==> {
            &&& d < k
            &&& exists|j: int| 0 <= j < support[d as int].len() && support[d as int][j]
            &&& forall|i: int, j: int|
                d < i < k && 0 <= j < support[i].len() ==> !#[trigger] support[i][j]
        },
        last_presenting(support, k) is None ==> forall|i: int, j: int|
            0 <= i < k && 0 <= j < support[i].len() ==> !#[trigger] support[i][j],
    decreases k,
{
    if k > 0 {
        lemma_last_presenting_upto(support, (k - 1) as nat);
        if !presents(support[k - 1]) {
            assert forall|j: int| 0 <= j < support[k - 1].len() implies !#[trigger] support[k - 1][j] by {}
        } else {
            assert(last_presenting(support, k) == Some((k - 1) as usize));
            assert(((k - 1) as usize) as int == k - 1);
        }
    }
}

/// The device chosen by the window system is the last device that has some
/// queue family able to present, whichever of its families that is: it has
/// such a family and no later device has one. No device is chosen exactly
/// when no family of any device can present.
pub proof fn lemma_last_presenting_device_is_chosen(support: Seq<Seq<bool>>)
    requires
        support.len() <= usize::MAX,
    ensures
        last_presenting(support, support.len()) matches Some(d) ==> {
            &&& d < support.len()
            &&& exists|j: int| 0 <= j < support[d as int].len() && support[d as int][j]
            &&& forall|i: int, j: int|
                d < i < support.len() && 0 <= j < support[i].len() ==> !#[trigger] support[i][j]
        },
        last_presenting(support, support.len()) is None <==> forall|i: int, j: int|
            0 <= i < support.len() && 0 <= j < support[i].len() ==> !#[trigger] support[i][j],
{
    lemma_last_presenting_upto(support, support.len());
}

/// Whether a family's raw queue flags hold the graphics bit.
pub open spec fn supports_graphics() -> spec_fn(u32) -> bool {
    |f: u32| f & graphics_bit() == graphics_bit()
}

/// `r` asks for the queues of some family of `flags` that supports
/// graphics, as many as there are families.
pub open spec fn requests_graphics_family(flags: Seq<u32>, r: QueueRequest) -> bool {
    exists|i: int|
        0 <= i < flags.len() && supports_graphics()(flags[i]) && r == (QueueRequest {
            family_index: i as u32,
            queue_count: flags.len() as u32,
        })
}

proof fn lemma_queue_requests_upto(flags: Seq<u32>, k: nat)
    requires
        k <= flags.len(),
    ensures
        forall|i: int|
            0 <= i < k && supports_graphics()(#[trigger] flags[i]) ==> queue_requests_upto(flags, k).contains(
                QueueRequest { family_index: i as u32, queue_count: flags.len() as u32 },
            ),
        forall|t: int|
            0 <= t < queue_requests_upto(flags, k).len() ==> requests_graphics_family(
                flags,
                #[trigger] queue_requests_upto(flags, k)[t],
            ),
        queue_requests_upto(flags, k).len() == flags.take(k as int).filter(supports_graphics()).len(),
    decreases k,
{
    reveal(Seq::filter);
    if k == 0 {
        assert(flags.take(0).len() == 0);
    } else {
        lemma_queue_requests_upto(flags, (k - 1) as nat);
        let before = queue_requests_upto(flags, (k - 1) as nat);
        let now = queue_requests_upto(flags, k);
        let n = flags.len();
        assert(flags.take(k as int).drop_last() =~= flags.take(k - 1));
        assert(flags.take(k as int).last() == flags[k - 1]);
        let r = QueueRequest { family_index: (k - 1) as u32, queue_count: n as u32 };
        if supports_graphics()(flags[k - 1]) {
            assert(now == before.push(r));
            assert(now[before.len() as int] == r);
            assert forall|i: int|
                0 <= i < k && supports_graphics()(#[trigger] flags[i]) implies now.contains(
                QueueRequest { family_index: i as u32, queue_count: n as u32 },
            ) by {
                if i < k - 1 {
                    let x = QueueRequest { family_index: i as u32, queue_count: n as u32 };
                    assert(before.contains(x));
                    let t = choose|t: int| 0 <= t < before.len() && before[t] == x;
                    assert(now[t] == x);
                }
            }
            assert forall|t: int| 0 <= t < now.len() implies requests_graphics_family(flags, #[trigger] now[t]) by {
                if t < before.len() {
                    assert(now[t] == before[t]);
                } else {
                    assert(now[t] == r);
                    let w: int = k - 1;
                    assert(0 <= w < n && supports_graphics()(flags[w]) && r == (QueueRequest {
                        family_index: w as u32,
                        queue_count: n as u32,
                    }));
                }
            }
        } else {
            assert(now == before);
        }
    }
}

/// The queues asked for are one request for each family whose flags hold
/// the graphics bit, asking for as many queues as there are families, and
/// nothing else: each such family is asked for, each request is for such a
/// family, and there are as many requests as such families.
pub proof fn lemma_graphics_families_are_requested(flags: Seq<u32>)
    ensures
        forall|i: int|
            0 <= i < flags.len() && supports_graphics()(#[trigger] flags[i]) ==> queue_requests_upto(
                flags,
                flags.len(),
            ).contains(QueueRequest { family_index: i as u32, queue_count: flags.len() as u32 }),
        forall|t: int|
            0 <= t < queue_requests_upto(flags, flags.len()).len() ==> requests_graphics_family(
                flags,
                #[trigger] queue_requests_upto(flags, flags.len())[t],
            ),
        queue_requests_upto(flags, flags.len()).len() == flags.filter(supports_graphics()).len(),
{
    lemma_queue_requests_upto(flags, flags.len());
    assert(flags.take(flags.len() as int) =~= flags);
}

} // verus!
