//! Display hot-plug detection: which ports became connected between two
//! samples of the four hot-plug detect lines.

use vstd::prelude::*;

verus! {

/// The ports among the first `k` whose line is up now and was not up at the
/// previous sample, in increasing order.
pub open spec fn hotplug_events_spec(last: Seq<bool>, now: Seq<bool>, k: int) -> Seq<u64>
    decreases k,
{
    if k <= 0 {
        Seq::<u64>::empty()
    } else {
        let earlier = hotplug_events_spec(last, now, k - 1);
        if now[k - 1] != last[k - 1] && now[k - 1] {
            earlier.push((k - 1) as u64)
        } else {
            earlier
        }
    }
}

/// The state of the four lines that the service works with: the sample when
/// the detector could be opened, else all lines down.
pub fn hotplug_state(sample: Option<[bool; 4]>) -> (s: [bool; 4])
    ensures
        sample matches Some(v) ==> s@ == v@,
        sample is None ==> s@ == seq![false, false, false, false],
{
    match sample {
        Some(v) => v,
        None => {
            let s = [false, false, false, false];
            assert(s@ =~= seq![false, false, false, false]);
            s
        },
    }
}

/// The ports to announce with a `HotPlugDetect` signal, given the previous and
/// the current sample.
pub fn hotplug_events(last: &[bool; 4], now: &[bool; 4]) -> (events: Vec<u64>)
    ensures
        events@ == hotplug_events_spec(last@, now@, 4),
{
    let mut events: Vec<u64> = Vec::new();
    let mut i: usize = 0;
    while i < 4
        invariant
            i <= 4,
            last@.len() == 4,
            now@.len() == 4,
            events@ == hotplug_events_spec(last@, now@, i as int),
        decreases 4 - i,
    {
        if now[i] != last[i] && now[i] {
            events.push(i as u64);
        }
        i = i + 1;
    }
    events
}

/// The service loop's memory of the previous sample of the lines.
pub struct HotplugMonitor {
    last: [bool; 4],
}

impl View for HotplugMonitor {
    type V = Seq<bool>;

    closed spec fn view(&self) -> Seq<bool> {
        self.last@
    }
}

impl HotplugMonitor {
    /// A monitor whose previous sample is `first`.
    pub fn new(first: [bool; 4]) -> (m: Self)
        ensures
            m@ == first@,
    {
        HotplugMonitor { last: first }
    }

    /// One turn of the service loop: the ports to announce, given the new
    /// sample, which becomes the previous one.
    pub fn step(&mut self, now: [bool; 4]) -> (events: Vec<u64>)
        ensures
            events@ == hotplug_events_spec(old(self)@, now@, 4),
            final(self)@ == now@,
    {
        let events = hotplug_events(&self.last, &now);
        self.last = now;
        events
    }
}

/// A port is announced exactly when its line went from down to up, ports come
/// in increasing order, and each is below `k`.
pub proof fn lemma_hotplug_events_are_rising_edges(last: Seq<bool>, now: Seq<bool>, k: int)
    requires
        last.len() == 4,
        now.len() == 4,
        0 <= k <= 4,
    ensures
        forall|p: u64| #![trigger hotplug_events_spec(last, now, k).contains(p)]
            hotplug_events_spec(last, now, k).contains(p) <==> (p < k && now[p as int] && !last[p as int]),
        forall|i: int, j: int| 0 <= i < j < hotplug_events_spec(last, now, k).len()
            ==> hotplug_events_spec(last, now, k)[i] < hotplug_events_spec(last, now, k)[j],
        forall|i: int| 0 <= i < hotplug_events_spec(last, now, k).len()
            ==> hotplug_events_spec(last, now, k)[i] < k,
    decreases k,
{
    if k > 0 {
        lemma_hotplug_events_are_rising_edges(last, now, k - 1);
        let earlier = hotplug_events_spec(last, now, k - 1);
        let ev = hotplug_events_spec(last, now, k);
        let rising = now[k - 1] != last[k - 1] && now[k - 1];
        if rising {
            assert(ev == earlier.push((k - 1) as u64));
            assert forall|p: u64| #![trigger ev.contains(p)]
                ev.contains(p) <==> (p < k && now[p as int] && !last[p as int]) by {
                if ev.contains(p) {
                    let i = choose|i: int| 0 <= i < ev.len() && ev[i] == p;
                    if i < earlier.len() {
                        assert(ev[i] == earlier[i]);
                        assert(earlier.contains(p));
                    } else {
                        assert(p == (k - 1) as u64);
                    }
                }
                if p < k && now[p as int] && !last[p as int] {
                    if p < k - 1 {
                        assert(earlier.contains(p));
                        let i = choose|i: int| 0 <= i < earlier.len() && earlier[i] == p;
                        assert(ev[i] == p);
                    } else {
                        assert(ev[ev.len() - 1] == p);
                    }
                }
            }
            assert forall|i: int, j: int| 0 <= i < j < ev.len() implies ev[i] < ev[j] by {
                if j < ev.len() - 1 {
                    assert(ev[i] == earlier[i]);
                    assert(ev[j] == earlier[j]);
                } else {
                    assert(ev[i] == earlier[i]);
                }
            }
            assert forall|i: int| 0 <= i < ev.len() implies ev[i] < k by {
                if i < ev.len() - 1 {
                    assert(ev[i] == earlier[i]);
                }
            }
        } else {
            assert(ev == earlier);
            assert forall|p: u64| #![trigger ev.contains(p)]
                ev.contains(p) <==> (p < k && now[p as int] && !last[p as int]) by {
                assert(earlier.contains(p) <==> (p < k - 1 && now[p as int] && !last[p as int]));
            }
        }
    }
}

/// When no line changed, nothing is announced; so a monitor's turn with the
/// sample it saw last announces nothing.
pub proof fn lemma_no_change_no_events(state: Seq<bool>, k: int)
    ensures
        hotplug_events_spec(state, state, k) == Seq::<u64>::empty(),
    decreases k,
{
    if k > 0 {
        lemma_no_change_no_events(state, k - 1);
    }
}

} // verus!
