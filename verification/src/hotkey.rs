//! Keyboard shortcuts, parsed by `global_hotkey`.

use vstd::prelude::*;
use crate::event::InputEvent;
use crate::text::{to_lowercase, str_to_lowercase};

verus! {

/// What `HotKey::from_str` makes of a text: the id of the parsed hotkey, or
/// the `Debug` text of the `HotKeyParseError` it reports.
pub uninterp spec fn hotkey_from_str(s: Seq<char>) -> Result<u32, Seq<char>>;

/// Calls `<HotKey as FromStr>::from_str` (the crate's `parse_hotkey`, which
/// splits on `+`, reads modifiers and one key) and, on success, `HotKey::id`;
/// on failure, the `Debug` text of the error. Both are named by
/// `hotkey_from_str`, a function of the text alone. The library keeps the
/// id; the `HotKey` to register is parsed again from the same text where it
/// is registered.
#[verifier::external_body]
pub(crate) fn parse_hotkey(s: &str) -> (res: Result<u32, String>)
    ensures
        match res {
            Ok(id) => hotkey_from_str(s@) == Ok::<u32, Seq<char>>(id),
            Err(e) => hotkey_from_str(s@) == Err::<u32, Seq<char>>(e@),
        },
{
    match <global_hotkey::hotkey::HotKey as std::str::FromStr>::from_str(s) {
        Ok(h) => Ok(h.id()),
        Err(e) => Err(format!("{:?}", e)),
    }
}

/// The text whose hotkey a shortcut stands for: the shortcut as written,
/// lowercased. Its id is `hotkey_from_str` of this text.
pub fn hotkey_text(hk: &str) -> (r: String)
    ensures
        r@ == str_to_lowercase(hk@),
{
    to_lowercase(hk)
}

/// The shortcuts of the stand-alone VPN manager: for each registered
/// hotkey id, the profile it switches to.
pub struct HotkeyListener {
    pub hotkeys: Vec<(u32, String)>,
}

pub open spec fn hotkeys_view(v: Seq<(u32, String)>) -> Seq<(u32, Seq<char>)> {
    v.map_values(|p: (u32, String)| (p.0, p.1@))
}

/// The profile of the first registration of hotkey `id`.
pub open spec fn route_of(hs: Seq<(u32, Seq<char>)>, id: u32) -> Option<Seq<char>>
    decreases hs.len(),
{
    if hs.len() == 0 {
        None
    } else {
        match route_of(hs.drop_last(), id) {
            Some(s) => Some(s),
            None => if hs.last().0 == id {
                Some(hs.last().1)
            } else {
                None
            },
        }
    }
}

impl HotkeyListener {
    /// No shortcut registered.
    pub fn new() -> (r: Self)
        ensures
            r.hotkeys@.len() == 0,
    {
        HotkeyListener { hotkeys: Vec::new() }
    }

    /// Registers hotkey `id` for the profile `state_id`, after the others.
    pub fn register_state(&mut self, id: u32, state_id: String)
        ensures
            hotkeys_view(final(self).hotkeys@) == hotkeys_view(old(self).hotkeys@).push((id, state_id@)),
    {
        let ghost before = hotkeys_view(self.hotkeys@);
        self.hotkeys.push((id, state_id));
        assert(hotkeys_view(self.hotkeys@) =~= before.push((id, state_id@)));
    }

    /// The request that a press of hotkey `id` makes: a switch to the
    /// profile of its first registration; none if it has none.
    pub fn route(&self, id: u32) -> (r: Option<InputEvent>)
        ensures
            match route_of(hotkeys_view(self.hotkeys@), id) {
                Some(s) => r matches Some(InputEvent::RequestStateSwitch(t)) && t@ == s,
                None => r is None,
            },
    {
        let ghost hv = hotkeys_view(self.hotkeys@);
        let mut i: usize = 0;
        while i < self.hotkeys.len()
            invariant
                hv == hotkeys_view(self.hotkeys@),
                hv.len() == self.hotkeys@.len(),
                i <= hv.len(),
                route_of(hv.take(i as int), id) is None,
            decreases hv.len() - i,
        {
            assert(hv.take(i + 1).drop_last() =~= hv.take(i as int));
            if self.hotkeys[i].0 == id {
                proof {
                    lemma_route_prefix(hv, i as int + 1, id);
                }
                return Some(InputEvent::RequestStateSwitch(self.hotkeys[i].1.clone()));
            }
            i = i + 1;
        }
        assert(hv.take(hv.len() as int) =~= hv);
        None
    }
}

/// Where a prefix already routes `id`, the whole list routes it the same way.
pub proof fn lemma_route_prefix(hs: Seq<(u32, Seq<char>)>, n: int, id: u32)
    requires
        0 <= n <= hs.len(),
        route_of(hs.take(n), id) is Some,
    ensures
        route_of(hs, id) == route_of(hs.take(n), id),
    decreases hs.len() - n,
{
    if n < hs.len() {
        assert(hs.take(n + 1).drop_last() =~= hs.take(n));
        lemma_route_prefix(hs, n + 1, id);
    } else {
        assert(hs.take(n) =~= hs);
    }
}

} // verus!
