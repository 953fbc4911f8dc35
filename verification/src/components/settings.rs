use crate::app::events::{kept, last_some, lemma_kept_were_unclaimed, unclaimed, Events};
use crate::components::menu::menu_requests;
use crate::event::Event;
use vstd::prelude::*;

verus! {

/// The answer that `Settings` gives to an event: the requested state of the
/// window for a toggle, nothing for any other event.
pub open spec fn toggle_answer(event: Event) -> Option<bool> {
    match event {
        Event::ToggleSettingsWindow { opened } => Some(opened),
        _ => None,
    }
}

/// The answers of `Settings` to each event of `events`, in order.
pub open spec fn toggle_answers(events: Seq<Event>) -> Seq<Option<bool>> {
    events.map_values(|e: Event| toggle_answer(e))
}

/// The answer of `Settings` to one event.
fn toggle_of(event: &Event) -> (r: Option<bool>)
    ensures
        r == toggle_answer(*event),
{
    match event {
        Event::ToggleSettingsWindow { opened } => Some(*opened),
        _ => None,
    }
}

/// The settings window: open or closed.
pub struct Settings {
    open: bool,
}

impl Default for Settings {
    fn default() -> (r: Self)
        ensures
            !r.is_open_spec(),
    {
        Settings { open: false }
    }
}

impl Settings {
    pub closed spec fn is_open_spec(&self) -> bool {
        self.open
    }

    /// Whether the window is shown.
    pub fn is_open(&self) -> (r: bool)
        ensures
            r == self.is_open_spec(),
    {
        self.open
    }

    /// Reacts to the settings window in one frame: when the window is shown
    /// and asks to be closed, a request to close it is queued.
    pub fn handle_close(&self, should_close: bool, events: &mut Events<Event>)
        ensures
            final(events)@ == if self.is_open_spec() && should_close {
                old(events)@.push(Event::ToggleSettingsWindow { opened: false })
            } else {
                old(events)@
            },
    {
        if self.open && should_close {
            events.push(Event::ToggleSettingsWindow { opened: false });
        }
    }

    /// Takes every toggle event out of the queue (leaving the others in
    /// order) and follows the last one; without any toggle, the window stays
    /// as it was.
    pub fn update(&mut self, events: &mut Events<Event>)
        ensures
            final(events)@ == kept(old(events)@, toggle_answers(old(events)@)),
            final(self).is_open_spec() == match last_some(toggle_answers(old(events)@)) {
                Some(opened) => opened,
                None => old(self).is_open_spec(),
            },
    {
        let ghost before = events@;
        let answer = events.pop(toggle_of);
        proof {
            let outs = choose|outs: Seq<Option<bool>>|
                {
                    &&& outs.len() == before.len()
                    &&& forall|i: int|
                        0 <= i < outs.len() ==> toggle_of.ensures((&before[i],), #[trigger] outs[i])
                    &&& events@ == kept(before, outs)
                    &&& answer == last_some(outs)
                };
            assert(outs =~= toggle_answers(before));
        }
        if let Some(opened) = answer {
            self.open = opened;
        }
    }
}

/// A click on the menu's settings button opens the window at the next
/// update, whatever was queued before it.
pub proof fn lemma_menu_click_opens(queue: Seq<Event>, scan_clicked: bool)
    ensures
        last_some(toggle_answers(queue + menu_requests(true, scan_clicked))) == Some(true),
{
    let with_toggle = queue.push(Event::ToggleSettingsWindow { opened: true });
    assert(toggle_answers(with_toggle).last() == Some(true));
    assert(last_some(toggle_answers(with_toggle)) == Some(true));
    if scan_clicked {
        let all = with_toggle.push(Event::ImportPaystubs);
        assert(queue + menu_requests(true, scan_clicked) =~= all);
        assert(toggle_answers(all).last() is None);
        assert(toggle_answers(all).drop_last() =~= toggle_answers(with_toggle));
        assert(last_some(toggle_answers(all)) == last_some(toggle_answers(all).drop_last()));
    } else {
        assert(queue + menu_requests(true, scan_clicked) =~= with_toggle);
    }
}

/// The window's own close request closes it at the next update.
pub proof fn lemma_close_request_closes(queue: Seq<Event>)
    ensures
        last_some(toggle_answers(queue.push(Event::ToggleSettingsWindow { opened: false })))
            == Some(false),
{
    assert(toggle_answers(queue.push(Event::ToggleSettingsWindow { opened: false })).last() == Some(
        false,
    ));
}

/// After an update no toggle stays queued.
pub proof fn lemma_update_leaves_no_toggle(queue: Seq<Event>)
    ensures
        forall|k: int|
            0 <= k < kept(queue, toggle_answers(queue)).len() ==> toggle_answer(
                #[trigger] kept(queue, toggle_answers(queue))[k],
            ) is None,
{
    let outs = toggle_answers(queue);
    lemma_kept_were_unclaimed(queue, outs);
    assert forall|k: int| 0 <= k < kept(queue, outs).len() implies toggle_answer(
        #[trigger] kept(queue, outs)[k],
    ) is None by {
        assert(unclaimed(queue, outs, kept(queue, outs)[k]));
        let i = choose|i: int|
            0 <= i < queue.len() && outs[i] is None && queue[i] == kept(queue, outs)[k];
        assert(outs[i] == toggle_answer(queue[i]));
    }
}

} // verus!
