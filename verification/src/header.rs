use vstd::prelude::*;
use vstd::string::StringSliceAdditionalSpecFns;
use vstd::utf8::encode_utf8;
use crate::action::Action;
use crate::command::Silent;
use crate::component::Component;
use crate::component_return::empty_return;
use crate::component_return::ComponentReturn;
use crate::component_return::ReturnModel;
use crate::envelope::ComponentMsg;
use crate::event::ComponentEvent;
use crate::event::KeyCode;
use crate::event::KeyEventKind;
use crate::info::InfoSheet;
use crate::nav::Menu;

verus! {

/// What the header is told.
#[derive(Debug, Clone, Copy, PartialEq, Eq, Structural)]
pub enum HeaderMsg {
    NextTab,
}

/// One line of the info panel: a name, the width of the gap behind it, and a value.
pub struct InfoLine {
    pub name: String,
    pub padding: usize,
    pub value: String,
}

/// Lines per column of the key-binding panel.
pub const LINES_PER_COLUMN: usize = 5;

/// The panel that lists the info sheet. It keeps no state.
pub struct InfoComponent {}

/// The header: the tab bar and the info sheet of the current screen.
pub struct HeaderComponent {
    pub menu: Menu,
    pub info: InfoComponent,
    pub sheet: InfoSheet,
}

/// The length in bytes of the name of an entry.
pub open spec fn name_len(entry: (String, String)) -> usize {
    encode_utf8(entry.0@).len() as usize
}

/// Whether `max` is the greatest length of a name among `entries`, or zero if there
/// is no entry.
pub open spec fn is_max_name_len(entries: Seq<(String, String)>, max: usize) -> bool {
    &&& forall|i: int| 0 <= i < entries.len() ==> name_len(#[trigger] entries[i]) <= max
    &&& entries.len() == 0 ==> max == 0
    &&& entries.len() > 0 ==> exists|i: int| 0 <= i < entries.len() && name_len(#[trigger] entries[i]) == max
}

/// The greatest length of a name among `entries`.
pub fn max_name_len(entries: &Vec<(String, String)>) -> (max: usize)
    ensures
        is_max_name_len(entries@, max),
{
    let mut max: usize = 0;
    let mut i: usize = 0;
    while i < entries.len()
        invariant
            i <= entries@.len(),
            is_max_name_len(entries@.take(i as int), max),
        decreases entries@.len() - i,
    {
        let ghost before = entries@.take(i as int);
        let ghost now = entries@.take(i + 1);
        let ghost old_max = max;
        let len = entries[i].0.as_str().len();
        assert(len == name_len(entries@[i as int]));
        if len > max {
            max = len;
        }
        proof {
            assert forall|k: int| 0 <= k < now.len() implies name_len(#[trigger] now[k]) <= max by {
                if k < i {
                    assert(now[k] == before[k]);
                }
            }
            if len > old_max || i == 0 {
                assert(name_len(now[i as int]) == max);
            } else {
                let w = choose|w: int| 0 <= w < before.len() && name_len(#[trigger] before[w]) == old_max;
                assert(now[w] == before[w]);
                assert(name_len(now[w]) == max);
            }
        }
        i += 1;
    }
    assert(entries@.take(i as int) =~= entries@);
    max
}

/// The width of the gap behind a name of `len` bytes when the longest name has `max`:
/// two more than the difference, as far as that can be written down.
pub open spec fn pad(max: usize, len: usize) -> usize {
    if max - len + 2 <= usize::MAX {
        (max - len + 2) as usize
    } else {
        usize::MAX
    }
}

/// Whether `lines` lists `entries` in order, each name followed by a gap that lines
/// the values up two columns behind the longest name.
pub open spec fn is_padded(entries: Seq<(String, String)>, lines: Seq<InfoLine>) -> bool {
    &&& lines.len() == entries.len()
    &&& exists|max: usize|
        #![trigger is_max_name_len(entries, max)]
        is_max_name_len(entries, max) && forall|i: int|
            0 <= i < lines.len() ==> {
                &&& (#[trigger] lines[i]).name == entries[i].0
                &&& lines[i].value == entries[i].1
                &&& lines[i].padding == pad(max, name_len(entries[i]))
            }
}

/// The lines of a panel that lists `entries`.
pub fn padded_lines(entries: &Vec<(String, String)>) -> (lines: Vec<InfoLine>)
    ensures
        is_padded(entries@, lines@),
{
    let max = max_name_len(entries);
    let mut lines: Vec<InfoLine> = Vec::new();
    let mut i: usize = 0;
    while i < entries.len()
        invariant
            i <= entries@.len(),
            is_max_name_len(entries@, max),
            lines@.len() == i,
            forall|k: int|
                0 <= k < i ==> {
                    &&& (#[trigger] lines@[k]).name == entries@[k].0
                    &&& lines@[k].value == entries@[k].1
                    &&& lines@[k].padding == pad(max, name_len(entries@[k]))
                },
        decreases entries@.len() - i,
    {
        let len = entries[i].0.as_str().len();
        assert(len == name_len(entries@[i as int]));
        assert(len <= max);
        let gap: usize = max - len;
        let padding: usize = gap.saturating_add(2);
        lines.push(InfoLine { name: entries[i].0.clone(), padding, value: entries[i].1.clone() });
        i += 1;
    }
    lines
}

/// Whether `columns` holds `lines` in order, five to a column, the last column with
/// what is left.
pub open spec fn is_chunked(lines: Seq<InfoLine>, columns: Seq<Vec<InfoLine>>) -> bool {
    &&& columns.len() == (lines.len() + 4) / 5
    &&& forall|c: int|
        0 <= c < columns.len() ==> (#[trigger] columns[c])@ == lines.subrange(
            5 * c,
            if 5 * c + 5 <= lines.len() {
                5 * c + 5
            } else {
                lines.len() as int
            },
        )
}

/// Splits `lines` into columns of five.
pub fn chunk_lines(lines: Vec<InfoLine>) -> (columns: Vec<Vec<InfoLine>>)
    ensures
        is_chunked(lines@, columns@),
{
    let ghost all = lines@;
    let mut rest = lines;
    let mut columns: Vec<Vec<InfoLine>> = Vec::new();
    let mut current: Vec<InfoLine> = Vec::new();
    let ghost done: int = 0;
    while rest.len() > 0
        invariant
            0 <= done <= all.len(),
            rest@ == all.skip(done),
            current@.len() < 5,
            columns@.len() * 5 + current@.len() == done,
            current@ == all.subrange(5 * columns@.len() as int, done),
            forall|c: int|
                0 <= c < columns@.len() ==> (#[trigger] columns@[c])@ == all.subrange(
                    5 * c,
                    5 * c + 5,
                ),
        decreases rest.len(),
    {
        let line = rest.remove(0);
        assert(line == all[done]);
        current.push(line);
        proof {
            assert(rest@ =~= all.skip(done + 1));
            assert(current@ =~= all.subrange(5 * columns@.len() as int, done + 1));
            done = done + 1;
        }
        if current.len() == LINES_PER_COLUMN {
            let mut full: Vec<InfoLine> = Vec::new();
            std::mem::swap(&mut full, &mut current);
            columns.push(full);
            assert(current@ =~= all.subrange(5 * columns@.len() as int, done));
        }
    }
    if current.len() > 0 {
        columns.push(current);
    }
    assert(all.skip(done).len() == 0);
    columns
}

impl InfoComponent {
    /// The lines of the panel that lists the facts of `props`.
    pub fn view_info(&self, props: &InfoSheet) -> (lines: Vec<InfoLine>)
        ensures
            is_padded(props.info@, lines@),
    {
        padded_lines(&props.info)
    }

    /// The columns of the panel that lists the key bindings of `props`, five lines to
    /// a column.
    pub fn view_key_bindings(&self, props: &InfoSheet) -> (columns: Vec<Vec<InfoLine>>)
        ensures
            exists|lines: Seq<InfoLine>|
                #![auto]
                is_padded(props.key_bindings@, lines) && is_chunked(lines, columns@),
    {
        let lines = padded_lines(&props.key_bindings);
        chunk_lines(lines)
    }
}

/// What a raw event means to the header: a press of the tab key moves to the next tab.
pub open spec fn header_event_spec(evt: ComponentEvent) -> Seq<ComponentMsg<HeaderMsg>> {
    if evt is Key && evt->Key_0.kind == KeyEventKind::Press && evt->Key_0.code == KeyCode::Tab {
        seq![ComponentMsg(HeaderMsg::NextTab)]
    } else {
        Seq::empty()
    }
}

impl Default for InfoComponent {
    fn default() -> (out: InfoComponent)
        ensures
            out == (InfoComponent {  }),
    {
        InfoComponent {  }
    }
}

impl Default for HeaderComponent {
    fn default() -> (out: HeaderComponent)
        ensures
            out.menu == Menu::Connectors,
            out.sheet.wf(),
            out.sheet@ == (crate::info::InfoSheetModel {
                info: Seq::empty(),
                key_bindings: Seq::empty(),
            }),
    {
        HeaderComponent::with_sheet(InfoSheet::default())
    }
}

impl HeaderComponent {
    /// A header on the first tab that shows `sheet`.
    pub fn with_sheet(sheet: InfoSheet) -> (out: HeaderComponent)
        ensures
            out.menu == Menu::Connectors,
            out.sheet == sheet,
    {
        HeaderComponent { menu: Menu::Connectors, info: InfoComponent {  }, sheet }
    }

    pub fn set_selected_menu(&mut self, menu: Menu)
        ensures
            final(self).menu == menu,
            final(self).sheet == old(self).sheet,
            final(self).info == old(self).info,
    {
        self.menu = menu;
    }

    pub fn update_sheet(&mut self, sheet: InfoSheet)
        ensures
            final(self).sheet == sheet,
            final(self).menu == old(self).menu,
            final(self).info == old(self).info,
    {
        self.sheet = sheet;
    }

    pub fn selected_menu(&self) -> (out: &Menu)
        ensures
            *out == self.menu,
    {
        &self.menu
    }

    /// The info sheet on show.
    pub fn sheet(&self) -> (out: &InfoSheet)
        ensures
            *out == self.sheet,
    {
        &self.sheet
    }
}

impl Component for HeaderComponent {
    type Msg = HeaderMsg;

    type Props = ();

    type Pending = Silent;

    open spec fn inv(&self) -> bool {
        true
    }

    open spec fn init_spec(&self, props: (), next: Self, ret: ReturnModel<HeaderMsg>) -> bool {
        next == *self && ret == empty_return::<HeaderMsg>()
    }

    /// The next tab is selected, wrapping around behind the last, and the root is asked
    /// to navigate to its screen.
    open spec fn update_spec(&self, msg: HeaderMsg, next: Self, ret: ReturnModel<HeaderMsg>) -> bool {
        &&& next == (HeaderComponent { menu: self.menu.next_spec(), ..*self })
        &&& ret == (ReturnModel::<HeaderMsg> {
            msgs: Seq::empty(),
            cmds: Seq::empty(),
            actions: seq![Action::NavTo(self.menu.next_spec().nav_spec())],
        })
    }

    open spec fn event_spec(&self, evt: ComponentEvent, msgs: Seq<ComponentMsg<HeaderMsg>>) -> bool {
        msgs == header_event_spec(evt)
    }

    fn init(&mut self, props: ()) -> (ret: ComponentReturn<HeaderMsg, Silent>) {
        ComponentReturn::empty()
    }

    fn update(&mut self, msg: ComponentMsg<HeaderMsg>) -> (ret: ComponentReturn<HeaderMsg, Silent>) {
        match msg.take() {
            HeaderMsg::NextTab => {
                self.menu = self.menu.next();
                ComponentReturn::action(Action::NavTo(self.menu.nav()))
            },
        }
    }

    fn handle_event(&self, evt: ComponentEvent) -> (msgs: Vec<ComponentMsg<HeaderMsg>>) {
        let mut msgs: Vec<ComponentMsg<HeaderMsg>> = Vec::new();
        match evt {
            ComponentEvent::Key(key) => {
                match (key.kind, key.code) {
                    (KeyEventKind::Press, KeyCode::Tab) => {
                        msgs.push(ComponentMsg(HeaderMsg::NextTab));
                    },
                    _ => {},
                }
            },
            _ => {},
        }
        assert(msgs@ =~= header_event_spec(evt));
        msgs
    }
}

} // verus!
