//! Which page the right panel shows.
use vstd::prelude::*;

use crate::ui::events::RightPanelEvent;
use crate::ui::model_data::RightPanelPage;

verus! {

/// The right panel's page.
#[derive(Clone, Copy, Debug)]
pub struct RightPanelState {
    pub current_page: RightPanelPage,
}

impl RightPanelState {
    /// Starts on the queue.
    pub fn new() -> (s: Self)
        ensures
            s.current_page == RightPanelPage::Queue,
    {
        RightPanelState { current_page: RightPanelPage::Queue }
    }

    /// Shows the requested page.
    pub fn event(&mut self, event: &RightPanelEvent)
        ensures
            match *event {
                RightPanelEvent::NavigateTo(page) => final(self).current_page == page,
            },
    {
        match event {
            RightPanelEvent::NavigateTo(page) => self.current_page = *page,
        }
    }
}

} // verus!
