//! The choice of the graphics adapter.

use vstd::prelude::*;

verus! {

/// The device handles BGRA textures and video.
pub const CREATE_DEVICE_FLAGS: u32 = 0x820;

/// The number under which the system knows an adapter. All zero means none.
#[derive(Debug, Clone, Copy, PartialEq, Eq, Structural)]
pub struct AdapterLuid {
    pub low_part: u32,
    pub high_part: i32,
}

/// An adapter that was found.
#[derive(Debug, Clone, Copy, PartialEq, Eq, Structural)]
pub struct AdapterRecord {
    /// Its number, if it told one.
    pub luid: Option<AdapterLuid>,
    /// Whether it has the interface that is needed.
    pub usable: bool,
}

/// The adapter to use.
#[derive(Debug, Clone, Copy, PartialEq, Eq, Structural)]
pub enum AdapterChoice {
    /// The one at this place in the list.
    Listed { index: usize },
    /// The one that the system holds for the fastest.
    HighPerformance,
}

impl AdapterLuid {
    /// Whether this names an adapter.
    pub open spec fn is_some(self) -> bool {
        self.low_part != 0 || self.high_part != 0
    }
}

impl AdapterRecord {
    /// Whether this is the adapter that was asked for and can be used.
    pub open spec fn answers(self, preferred: AdapterLuid) -> bool {
        self.luid == Some(preferred) && self.usable
    }
}

/// Whether a choice is the right one: the first adapter that has the preferred number and
/// can be used, or the fastest one where no number is preferred or no such adapter is
/// there.
pub open spec fn is_picked(
    preferred: AdapterLuid,
    adapters: Seq<AdapterRecord>,
    choice: AdapterChoice,
) -> bool {
    match choice {
        AdapterChoice::Listed { index } => {
            &&& preferred.is_some()
            &&& index < adapters.len()
            &&& adapters[index as int].answers(preferred)
            &&& forall|j: int| 0 <= j < index ==> !(#[trigger] adapters[j]).answers(preferred)
        },
        AdapterChoice::HighPerformance => {
            ||| !preferred.is_some()
            ||| forall|j: int|
                0 <= j < adapters.len() ==> !(#[trigger] adapters[j]).answers(preferred)
        },
    }
}

/// Picks the first adapter that has the preferred number and can be used; where no
/// number is preferred, or no such adapter is there, the fastest one.
pub fn pick_adapter(preferred: AdapterLuid, adapters: &Vec<AdapterRecord>) -> (choice: AdapterChoice)
    ensures
        is_picked(preferred, adapters@, choice),
{
    if preferred.low_part != 0 || preferred.high_part != 0 {
        let mut i: usize = 0;
        while i < adapters.len()
            invariant
                preferred.is_some(),
                i <= adapters.len(),
                forall|j: int| 0 <= j < i ==> !(#[trigger] adapters[j]).answers(preferred),
            decreases adapters.len() - i,
        {
            let adapter = adapters[i];
            if let Some(luid) = adapter.luid {
                if luid.low_part == preferred.low_part && luid.high_part == preferred.high_part {
                    if adapter.usable {
                        assert(adapters[i as int].answers(preferred)) by {
                            assert(luid == preferred);
                        }
                        return AdapterChoice::Listed { index: i };
                    }
                }
            }
            i = i + 1;
            assert(!adapters[i - 1].answers(preferred));
        }
        return AdapterChoice::HighPerformance;
    }
    AdapterChoice::HighPerformance
}

/// An output of an adapter: the monitor behind it.
#[derive(Debug, Clone, Copy, PartialEq, Eq, Structural)]
pub struct OutputRecord {
    pub monitor: u64,
    pub adapter: AdapterLuid,
}

/// The number that names no adapter.
pub open spec fn no_adapter() -> AdapterLuid {
    AdapterLuid { low_part: 0, high_part: 0 }
}

/// The adapter of the first output from `i` on that shows the monitor; none where no
/// output does.
pub open spec fn adapter_from(outputs: Seq<OutputRecord>, monitor: u64, i: nat) -> AdapterLuid
    decreases outputs.len() - i,
{
    if i >= outputs.len() {
        no_adapter()
    } else if outputs[i as int].monitor == monitor {
        outputs[i as int].adapter
    } else {
        adapter_from(outputs, monitor, i + 1)
    }
}

/// The adapter whose output shows a monitor; the number of none where no output
/// does.
pub fn preferred_adapter(outputs: &Vec<OutputRecord>, monitor: u64) -> (adapter: AdapterLuid)
    ensures
        adapter == adapter_from(outputs@, monitor, 0),
{
    let mut i: usize = 0;
    while i < outputs.len()
        invariant
            i <= outputs.len(),
            adapter_from(outputs@, monitor, 0) == adapter_from(outputs@, monitor, i as nat),
        decreases outputs.len() - i,
    {
        if outputs[i].monitor == monitor {
            return outputs[i].adapter;
        }
        i = i + 1;
    }
    AdapterLuid { low_part: 0, high_part: 0 }
}

/// The adapter that is preferred for a monitor is the one of an output that shows
/// it, if there is such an output, and the only one where all such outputs belong to
/// one adapter.
pub proof fn law_preferred_adapter_shows_the_monitor(
    outputs: Seq<OutputRecord>,
    monitor: u64,
    k: int,
)
    requires
        0 <= k < outputs.len(),
        outputs[k].monitor == monitor,
    ensures
        exists|j: int|
            0 <= j < outputs.len() && (#[trigger] outputs[j]).monitor == monitor
                && outputs[j].adapter == adapter_from(outputs, monitor, 0),
        (forall|j: int|
            0 <= j < outputs.len() && (#[trigger] outputs[j]).monitor == monitor
                ==> outputs[j].adapter == outputs[k].adapter) ==> adapter_from(outputs, monitor, 0)
            == outputs[k].adapter,
{
    lemma_adapter_from(outputs, monitor, 0, k);
}

proof fn lemma_adapter_from(outputs: Seq<OutputRecord>, monitor: u64, i: nat, k: int)
    requires
        i <= k < outputs.len(),
        outputs[k].monitor == monitor,
    ensures
        exists|j: int|
            0 <= j < outputs.len() && (#[trigger] outputs[j]).monitor == monitor
                && outputs[j].adapter == adapter_from(outputs, monitor, i),
    decreases k - i,
{
    if outputs[i as int].monitor != monitor {
        lemma_adapter_from(outputs, monitor, i + 1, k);
    }
}

/// An adapter of the list is picked exactly if one can be used and has the preferred
/// number, which is not all zero; it is the first such one.
pub proof fn law_preferred_adapter_is_picked(
    preferred: AdapterLuid,
    adapters: Seq<AdapterRecord>,
    choice: AdapterChoice,
    k: int,
)
    requires
        is_picked(preferred, adapters, choice),
        0 <= k < adapters.len(),
    ensures
        preferred.low_part == 0 && preferred.high_part == 0 ==> choice
            == AdapterChoice::HighPerformance,
        (preferred.low_part != 0 || preferred.high_part != 0) && adapters[k].usable
            && adapters[k].luid == Some(preferred) ==> (choice matches AdapterChoice::Listed {
            index,
        } && index <= k),
        choice matches AdapterChoice::Listed { index } ==> {
            &&& index < adapters.len()
            &&& adapters[index as int].usable
            &&& adapters[index as int].luid == Some(preferred)
        },
{
    if preferred.is_some() && adapters[k].usable && adapters[k].luid == Some(preferred) {
        assert(adapters[k].answers(preferred));
    }
}

/// The first output that shows a monitor says which adapter is preferred for it; where
/// none does, no adapter is.
pub proof fn law_first_output_says_the_adapter(
    outputs: Seq<OutputRecord>,
    monitor: u64,
    n: nat,
)
    requires
        n <= outputs.len(),
        forall|j: int| 0 <= j < n ==> (#[trigger] outputs[j]).monitor != monitor,
        n < outputs.len() ==> outputs[n as int].monitor == monitor,
    ensures
        n < outputs.len() ==> adapter_from(outputs, monitor, 0) == outputs[n as int].adapter,
        n == outputs.len() ==> {
            &&& adapter_from(outputs, monitor, 0).low_part == 0
            &&& adapter_from(outputs, monitor, 0).high_part == 0
        },
{
    lemma_skipped_outputs(outputs, monitor, 0, n);
}

proof fn lemma_skipped_outputs(outputs: Seq<OutputRecord>, monitor: u64, i: nat, n: nat)
    requires
        i <= n <= outputs.len(),
        forall|j: int| i <= j < n ==> (#[trigger] outputs[j]).monitor != monitor,
    ensures
        adapter_from(outputs, monitor, i) == adapter_from(outputs, monitor, n),
    decreases n - i,
{
    if i < n {
        assert(outputs[i as int].monitor != monitor);
        lemma_skipped_outputs(outputs, monitor, i + 1, n);
    }
}

} // verus!
