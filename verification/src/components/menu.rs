use crate::app::events::Events;
use crate::event::Event;
use vstd::prelude::*;

verus! {

/// The top bar of the window. It holds no state of its own: it only pushes
/// events when its buttons are pressed.
pub struct Menu {}

impl Default for Menu {
    fn default() -> (r: Self)
        ensures
            r == (Menu {}),
    {
        Menu {}
    }
}

/// The events that the menu's buttons ask for, in the order the menu shows
/// them: the settings button, then the scan button.
pub open spec fn menu_requests(settings_clicked: bool, scan_clicked: bool) -> Seq<Event> {
    let settings = if settings_clicked {
        seq![Event::ToggleSettingsWindow { opened: true }]
    } else {
        Seq::empty()
    };
    let scan = if scan_clicked {
        seq![Event::ImportPaystubs]
    } else {
        Seq::empty()
    };
    settings + scan
}

impl Menu {
    /// Reacts to the buttons pressed in one frame: the settings button asks
    /// to open the settings window, the scan button asks to import paystubs.
    pub fn handle_clicks(&self, settings_clicked: bool, scan_clicked: bool, events: &mut Events<Event>)
        ensures
            final(events)@ == old(events)@ + menu_requests(settings_clicked, scan_clicked),
    {
        if settings_clicked {
            events.push(Event::ToggleSettingsWindow { opened: true });
        }
        if scan_clicked {
            events.push(Event::ImportPaystubs);
        }
        assert(events@ =~= old(events)@ + menu_requests(settings_clicked, scan_clicked));
    }
}

/// Each button queues its own request, whatever the other button did: a
/// click on the scan button alone queues exactly an import request, a click
/// on the settings button alone exactly a request to open the settings, no
/// click nothing; with both, the settings request comes first.
pub proof fn lemma_each_button_queues_its_request(settings_clicked: bool, scan_clicked: bool)
    ensures
        menu_requests(false, true) == seq![Event::ImportPaystubs],
        menu_requests(true, false) == seq![(Event::ToggleSettingsWindow { opened: true })],
        menu_requests(false, false) == Seq::<Event>::empty(),
        menu_requests(true, true) == seq![
            (Event::ToggleSettingsWindow { opened: true }),
            Event::ImportPaystubs,
        ],
        scan_clicked ==> menu_requests(settings_clicked, scan_clicked).contains(Event::ImportPaystubs),
        scan_clicked ==> menu_requests(settings_clicked, scan_clicked).last() == Event::ImportPaystubs,
        settings_clicked ==> menu_requests(settings_clicked, scan_clicked)[0]
            == (Event::ToggleSettingsWindow { opened: true }),
        menu_requests(settings_clicked, scan_clicked).len() == (if settings_clicked {
            1int
        } else {
            0int
        }) + (if scan_clicked {
            1int
        } else {
            0int
        }),
{
    assert(menu_requests(false, true) =~= seq![Event::ImportPaystubs]);
    assert(menu_requests(true, false) =~= seq![(Event::ToggleSettingsWindow { opened: true })]);
    assert(menu_requests(false, false) =~= Seq::<Event>::empty());
    assert(menu_requests(true, true) =~= seq![
        (Event::ToggleSettingsWindow { opened: true }),
        Event::ImportPaystubs,
    ]);
    if scan_clicked {
        let r = menu_requests(settings_clicked, scan_clicked);
        assert(r[r.len() - 1] == Event::ImportPaystubs);
    }
}

} // verus!
