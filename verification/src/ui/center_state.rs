//! Back and forward navigation between the pages of the center panel.
use vstd::prelude::*;

use crate::ui::events::CenterPanelEvent;
use crate::ui::model_data::CenterPage;

verus! {

/// The center panel's page and its browsing history.
#[derive(Debug)]
pub struct CenterState {
    pub current_page: CenterPage,
    pub page_history: Vec<CenterPage>,
    pub page_history_index: usize,
    pub can_go_back: bool,
    pub can_go_forward: bool,
}

/// The mathematical value of a `CenterState`.
#[verifier::ext_equal]
pub struct CenterModel {
    pub current: CenterPage,
    pub history: Seq<CenterPage>,
    pub index: int,
    pub can_go_back: bool,
    pub can_go_forward: bool,
}

impl View for CenterState {
    type V = CenterModel;

    open spec fn view(&self) -> CenterModel {
        CenterModel {
            current: self.current_page,
            history: self.page_history@,
            index: self.page_history_index as int,
            can_go_back: self.can_go_back,
            can_go_forward: self.can_go_forward,
        }
    }
}

/// The flags say whether there is a page behind and ahead of the current one.
pub open spec fn synced(m: CenterModel) -> CenterModel {
    CenterModel { can_go_back: m.index > 0, can_go_forward: m.index + 1 < m.history.len(), ..m }
}

/// A well-formed history: not empty, the index inside it, the current page
/// at the index and the flags in step.
pub open spec fn center_wf(m: CenterModel) -> bool {
    &&& m.history.len() > 0
    &&& 0 <= m.index < m.history.len()
    &&& m.current == m.history[m.index]
    &&& m == synced(m)
}

/// Opening `page`: staying put when it is already shown, else dropping the
/// pages ahead and appending it.
pub open spec fn navigate_to(m: CenterModel, page: CenterPage) -> CenterModel {
    if 0 <= m.index < m.history.len() && m.history[m.index] == page {
        synced(CenterModel { current: page, ..m })
    } else {
        let kept = if m.index + 1 <= m.history.len() { m.history.take(m.index + 1) } else { m.history };
        let h = kept.push(page);
        synced(CenterModel { current: page, history: h, index: h.len() - 1, ..m })
    }
}

/// Going one page back, if there is one.
pub open spec fn navigate_back(m: CenterModel) -> CenterModel {
    if m.index == 0 {
        synced(m)
    } else if 0 <= m.index - 1 < m.history.len() {
        synced(CenterModel { index: m.index - 1, current: m.history[m.index - 1], ..m })
    } else {
        synced(m)
    }
}

/// Going one page forward, if there is one.
pub open spec fn navigate_forward(m: CenterModel) -> CenterModel {
    if m.index + 1 >= m.history.len() {
        synced(m)
    } else if 0 <= m.index + 1 {
        synced(CenterModel { index: m.index + 1, current: m.history[m.index + 1], ..m })
    } else {
        synced(m)
    }
}

/// The effect of a navigation event.
pub open spec fn center_step(m: CenterModel, e: CenterPanelEvent) -> CenterModel {
    match e {
        CenterPanelEvent::NavigateTo(page) => navigate_to(m, page),
        CenterPanelEvent::NavigateBack => navigate_back(m),
        CenterPanelEvent::NavigateForward => navigate_forward(m),
    }
}

impl CenterState {
    /// Starts on the search page with no history.
    pub fn new() -> (s: Self)
        ensures
            s@.current == CenterPage::Search,
            s@.history == seq![CenterPage::Search],
            s@.index == 0,
            center_wf(s@),
    {
        let s = CenterState {
            current_page: CenterPage::Search,
            page_history: vec![CenterPage::Search],
            page_history_index: 0,
            can_go_back: false,
            can_go_forward: false,
        };
        assert(s@ =~= synced(s@));
        s
    }

    fn sync_navigation_flags(&mut self)
        ensures
            final(self)@ == synced(old(self)@),
    {
        let index = self.page_history_index;
        let len = self.page_history.len();
        self.can_go_back = index > 0;
        self.can_go_forward = index < len && index + 1 < len;
    }

    /// Opens `page`.
    pub fn navigate_to(&mut self, page: CenterPage)
        requires
            old(self).page_history@.len() < usize::MAX,
        ensures
            final(self)@ == navigate_to(old(self)@, page),
    {
        let index = self.page_history_index;
        if index < self.page_history.len() && self.page_history[index] == page {
            self.current_page = page;
            self.sync_navigation_flags();
            return;
        }
        let mut history: Vec<CenterPage> = Vec::new();
        let keep = if index < self.page_history.len() { index + 1 } else { self.page_history.len() };
        let mut i: usize = 0;
        while i < keep
            invariant
                keep <= self.page_history@.len(),
                i <= keep,
                history@ == self.page_history@.take(i as int),
            decreases keep - i,
        {
            history.push(self.page_history[i]);
            i += 1;
            assert(history@ =~= self.page_history@.take(i as int));
        }
        if keep == self.page_history.len() {
            assert(self.page_history@.take(keep as int) =~= self.page_history@);
        }
        history.push(page);
        let new_index = history.len() - 1;
        self.page_history = history;
        self.page_history_index = new_index;
        self.current_page = page;
        self.sync_navigation_flags();
    }

    /// Goes one page back, if there is one.
    pub fn navigate_back(&mut self)
        ensures
            final(self)@ == navigate_back(old(self)@),
    {
        let index = self.page_history_index;
        if index == 0 {
            self.sync_navigation_flags();
            return;
        }
        let next_index = index - 1;
        if next_index < self.page_history.len() {
            self.page_history_index = next_index;
            self.current_page = self.page_history[next_index];
        }
        self.sync_navigation_flags();
    }

    /// Goes one page forward, if there is one.
    pub fn navigate_forward(&mut self)
        ensures
            final(self)@ == navigate_forward(old(self)@),
    {
        let index = self.page_history_index;
        if index >= self.page_history.len() || index + 1 >= self.page_history.len() {
            self.sync_navigation_flags();
            return;
        }
        let next_index = index + 1;
        self.page_history_index = next_index;
        self.current_page = self.page_history[next_index];
        self.sync_navigation_flags();
    }

    /// Handles one navigation event.
    pub fn event(&mut self, event: &CenterPanelEvent)
        requires
            old(self).page_history@.len() < usize::MAX,
        ensures
            final(self)@ == center_step(old(self)@, *event),
    {
        match event {
            CenterPanelEvent::NavigateTo(page) => self.navigate_to(*page),
            CenterPanelEvent::NavigateBack => self.navigate_back(),
            CenterPanelEvent::NavigateForward => self.navigate_forward(),
        }
    }
}

/// Every navigation keeps the history well formed.
pub proof fn law_navigation_keeps_history_wf(m: CenterModel, e: CenterPanelEvent)
    requires
        center_wf(m),
    ensures
        center_wf(center_step(m, e)),
{
    match e {
        CenterPanelEvent::NavigateTo(page) => {
            if m.history[m.index] != page {
                let h = m.history.take(m.index + 1).push(page);
                assert(h[h.len() - 1] == page);
            }
        },
        _ => {},
    }
}

/// Going back and then forward returns to the same page and history.
pub proof fn law_back_then_forward_returns(m: CenterModel)
    requires
        center_wf(m),
        m.can_go_back,
    ensures
        navigate_forward(navigate_back(m)) == m,
{
    assert(navigate_forward(navigate_back(m)) =~= m);
}

/// Opening a new page and going back shows the page that was shown before,
/// and the new page stays ahead in the history.
pub proof fn law_open_then_back_returns(m: CenterModel, page: CenterPage)
    requires
        center_wf(m),
        m.current != page,
    ensures
        navigate_back(navigate_to(m, page)).current == m.current,
        navigate_back(navigate_to(m, page)).index == m.index,
        navigate_back(navigate_to(m, page)).can_go_forward,
        navigate_forward(navigate_back(navigate_to(m, page))).current == page,
{
    let h = m.history.take(m.index + 1).push(page);
    assert(h[m.index] == m.history[m.index]);
}

/// After opening a page other than the current one there is nothing ahead;
/// opening the current page changes nothing.
pub proof fn law_open_clears_forward(m: CenterModel, page: CenterPage)
    requires
        center_wf(m),
    ensures
        m.current == page ==> navigate_to(m, page) == m,
        m.current != page ==> !navigate_to(m, page).can_go_forward,
        navigate_to(m, page).current == page,
{
    assert(m.current == page ==> navigate_to(m, page) =~= m);
}

} // verus!
