use vstd::prelude::*;
use crate::command::Silent;
use crate::component::Component;
use crate::component_return::ComponentReturn;
use crate::component_return::ReturnModel;
use crate::component_return::empty_return;
use crate::envelope::ComponentMsg;
use crate::event::ComponentEvent;
use crate::event::KeyCode;
use crate::event::KeyEvent;
use crate::info::put;
use crate::info::InfoSheet;
use crate::info::InfoSheetModel;

verus! {

/// What a table tells itself.
#[derive(Debug, Clone, Copy, PartialEq, Eq, Structural)]
pub enum TableLocalMsg {
    MoveUp,
    MoveDown,
}

/// What a table emits: a message for itself, or one for its parent.
#[derive(Debug)]
pub enum TableMsg<T> {
    Local(TableLocalMsg),
    Outer(T),
}

/// Makes the parent's message out of the selected element.
pub trait Selector<T> {
    type Msg;

    /// `select` may answer `out` for `element`.
    spec fn select_spec(&self, element: &T, out: Self::Msg) -> bool;

    fn select(&self, element: &T) -> (out: Self::Msg)
        ensures
            self.select_spec(element, out),
    ;
}

/// A table of elements with one row selected.
pub struct UiTable<T, S> {
    pub name: String,
    pub elements: Vec<T>,
    /// The selected row, as the table widget keeps it.
    pub selected: Option<usize>,
    pub on_select: Option<S>,
    pub show_block: bool,
}

/// The info sheet of a table.
pub open spec fn table_sheet() -> InfoSheetModel {
    InfoSheetModel {
        info: Seq::empty(),
        key_bindings: put(put(Seq::empty(), "<j/down>"@, "Down"@), "<k/down>"@, "Up"@),
    }
}

impl<T> TableMsg<T> {
    /// The table's message to itself that `value` stands for.
    pub fn from(value: TableLocalMsg) -> (out: TableMsg<T>)
        ensures
            out == TableMsg::<T>::Local(value),
    {
        TableMsg::Local(value)
    }
}

/// The row selected after moving up from `selected` in a table of `len` rows: the row
/// above, the last row from the first, the first row when none was selected. An empty
/// table keeps its selection.
pub open spec fn moved_up(selected: Option<usize>, len: nat) -> Option<usize> {
    if len == 0 {
        selected
    } else {
        match selected {
            Some(i) => if i == 0 {
                Some((len - 1) as usize)
            } else {
                Some((i - 1) as usize)
            },
            None => Some(0usize),
        }
    }
}

/// The row selected after moving down from `selected` in a table of `len` rows: the
/// row below, the first row from the last, the first row when none was selected. An
/// empty table keeps its selection.
pub open spec fn moved_down(selected: Option<usize>, len: nat) -> Option<usize> {
    if len == 0 {
        selected
    } else {
        match selected {
            Some(i) => if i == len - 1 {
                Some(0usize)
            } else if i < usize::MAX {
                Some((i + 1) as usize)
            } else {
                selected
            },
            None => Some(0usize),
        }
    }
}

/// What a key means to a table: enter selects the current row for the parent, `j` and
/// the down arrow move down, `k` and the up arrow move up.
pub open spec fn table_key_spec<T, S: Selector<T>>(
    table: UiTable<T, S>,
    key: KeyEvent,
    msgs: Seq<ComponentMsg<TableMsg<S::Msg>>>,
) -> bool {
    match key.code {
        KeyCode::Enter => {
            if table.on_select is Some && table.selected is Some && table.selected->Some_0
                < table.elements@.len() {
                &&& msgs.len() == 1
                &&& msgs[0].payload() is Outer
                &&& table.on_select->Some_0.select_spec(
                    &table.elements@[table.selected->Some_0 as int],
                    msgs[0].payload()->Outer_0,
                )
            } else {
                msgs == Seq::<ComponentMsg<TableMsg<S::Msg>>>::empty()
            }
        },
        KeyCode::Char(c) => if c == 'j' {
            msgs == seq![ComponentMsg(TableMsg::<S::Msg>::Local(TableLocalMsg::MoveDown))]
        } else if c == 'k' {
            msgs == seq![ComponentMsg(TableMsg::<S::Msg>::Local(TableLocalMsg::MoveUp))]
        } else {
            msgs == Seq::<ComponentMsg<TableMsg<S::Msg>>>::empty()
        },
        KeyCode::Down => msgs == seq![
            ComponentMsg(TableMsg::<S::Msg>::Local(TableLocalMsg::MoveDown)),
        ],
        KeyCode::Up => msgs == seq![ComponentMsg(TableMsg::<S::Msg>::Local(TableLocalMsg::MoveUp))],
        _ => msgs == Seq::<ComponentMsg<TableMsg<S::Msg>>>::empty(),
    }
}

impl<T, S: Selector<T>> Default for UiTable<T, S> {
    fn default() -> (out: Self)
        ensures
            out.name@.len() == 0,
            out.elements@.len() == 0,
            out.selected == Some(0usize),
            out.on_select is None,
            !out.show_block,
    {
        UiTable { name: String::new(), elements: Vec::new(), selected: Some(0), on_select: None, show_block: false }
    }
}

impl<T, S: Selector<T>> UiTable<T, S> {
    /// An empty table with its first row selected.
    pub fn new(name: String) -> (out: Self)
        ensures
            out.name == name,
            out.elements@.len() == 0,
            out.selected == Some(0usize),
            out.on_select is None,
            !out.show_block,
    {
        UiTable { name, elements: Vec::new(), selected: Some(0), on_select: None, show_block: false }
    }

    /// A table of `elements` with its first row selected.
    pub fn with_elements(name: String, elements: Vec<T>, show_block: bool) -> (out: Self)
        ensures
            out.name == name,
            out.elements == elements,
            out.selected == Some(0usize),
            out.on_select is None,
            out.show_block == show_block,
    {
        UiTable { name, elements, selected: Some(0), on_select: None, show_block }
    }

    /// The same table, telling its parent of a selection through `selector`.
    pub fn on_select(self, selector: S) -> (out: Self)
        ensures
            out.name == self.name,
            out.elements == self.elements,
            out.selected == self.selected,
            out.on_select == Some(selector),
            out.show_block == self.show_block,
    {
        let mut out = self;
        out.on_select = Some(selector);
        out
    }

    /// The keys that do something in a table.
    pub fn info_sheet(&self) -> (out: InfoSheet)
        ensures
            out.wf(),
            out@ == table_sheet(),
    {
        InfoSheet::default().key_binding("<j/down>", "Down").key_binding("<k/down>", "Up")
    }

    /// The selected row, as the table widget keeps it.
    pub fn selected(&self) -> (out: Option<usize>)
        ensures
            out == self.selected,
    {
        self.selected
    }

    /// Takes over the selection that the table widget holds after painting.
    pub fn set_selected(&mut self, selected: Option<usize>)
        ensures
            final(self).selected == selected,
            final(self).name == old(self).name,
            final(self).elements == old(self).elements,
            final(self).on_select == old(self).on_select,
            final(self).show_block == old(self).show_block,
    {
        self.selected = selected;
    }

    /// Replaces the rows; the selection stays where it is.
    pub fn set_elements(&mut self, elements: Vec<T>)
        ensures
            final(self).elements == elements,
            final(self).selected == old(self).selected,
            final(self).name == old(self).name,
            final(self).on_select == old(self).on_select,
            final(self).show_block == old(self).show_block,
    {
        self.elements = elements;
    }

    pub fn handle_key(&self, key: KeyEvent) -> (msgs: Vec<ComponentMsg<TableMsg<S::Msg>>>)
        ensures
            table_key_spec(*self, key, msgs@),
    {
        let mut msgs: Vec<ComponentMsg<TableMsg<S::Msg>>> = Vec::new();
        match key.code {
            KeyCode::Enter => {
                match &self.on_select {
                    Some(selector) => {
                        match self.selected {
                            Some(idx) => {
                                if idx < self.elements.len() {
                                    let outer = selector.select(&self.elements[idx]);
                                    msgs.push(ComponentMsg(TableMsg::Outer(outer)));
                                }
                            },
                            None => {},
                        }
                    },
                    None => {},
                }
            },
            KeyCode::Char(c) => {
                if c == 'j' {
                    msgs.push(ComponentMsg(TableMsg::Local(TableLocalMsg::MoveDown)));
                } else if c == 'k' {
                    msgs.push(ComponentMsg(TableMsg::Local(TableLocalMsg::MoveUp)));
                }
            },
            KeyCode::Down => {
                msgs.push(ComponentMsg(TableMsg::Local(TableLocalMsg::MoveDown)));
            },
            KeyCode::Up => {
                msgs.push(ComponentMsg(TableMsg::Local(TableLocalMsg::MoveUp)));
            },
            _ => {},
        }
        msgs
    }

    pub fn move_up(&mut self)
        ensures
            final(self).selected == moved_up(old(self).selected, old(self).elements@.len()),
            final(self).name == old(self).name,
            final(self).elements == old(self).elements,
            final(self).on_select == old(self).on_select,
            final(self).show_block == old(self).show_block,
    {
        if self.elements.len() > 0 {
            let new_pos: usize = match self.selected {
                Some(i) => if i == 0 {
                    self.elements.len() - 1
                } else {
                    i - 1
                },
                None => 0,
            };
            self.selected = Some(new_pos);
        }
    }

    pub fn move_down(&mut self)
        ensures
            final(self).selected == moved_down(old(self).selected, old(self).elements@.len()),
            final(self).name == old(self).name,
            final(self).elements == old(self).elements,
            final(self).on_select == old(self).on_select,
            final(self).show_block == old(self).show_block,
    {
        if self.elements.len() > 0 {
            let new_pos: usize = match self.selected {
                Some(i) => if i == self.elements.len() - 1 {
                    0
                } else if i < usize::MAX {
                    i + 1
                } else {
                    i
                },
                None => 0,
            };
            self.selected = Some(new_pos);
        }
    }
}

/// The table after one of its messages: a move changes the selection, a message for
/// the parent changes nothing.
pub open spec fn table_updated<T, S: Selector<T>>(
    table: UiTable<T, S>,
    msg: TableMsg<S::Msg>,
) -> UiTable<T, S> {
    match msg {
        TableMsg::Local(TableLocalMsg::MoveDown) => UiTable {
            selected: moved_down(table.selected, table.elements@.len()),
            ..table
        },
        TableMsg::Local(TableLocalMsg::MoveUp) => UiTable {
            selected: moved_up(table.selected, table.elements@.len()),
            ..table
        },
        TableMsg::Outer(_) => table,
    }
}

impl<T, S: Selector<T>> Component for UiTable<T, S> {
    type Msg = TableMsg<S::Msg>;

    type Props = ();

    type Pending = Silent;

    open spec fn inv(&self) -> bool {
        true
    }

    open spec fn init_spec(&self, props: (), next: Self, ret: ReturnModel<TableMsg<S::Msg>>) -> bool {
        next == *self && ret == empty_return::<TableMsg<S::Msg>>()
    }

    open spec fn update_spec(
        &self,
        msg: TableMsg<S::Msg>,
        next: Self,
        ret: ReturnModel<TableMsg<S::Msg>>,
    ) -> bool {
        next == table_updated(*self, msg) && ret == empty_return::<TableMsg<S::Msg>>()
    }

    open spec fn event_spec(
        &self,
        evt: ComponentEvent,
        msgs: Seq<ComponentMsg<TableMsg<S::Msg>>>,
    ) -> bool {
        match evt {
            ComponentEvent::Key(key) => table_key_spec(*self, key, msgs),
            _ => msgs == Seq::<ComponentMsg<TableMsg<S::Msg>>>::empty(),
        }
    }

    fn init(&mut self, props: ()) -> (ret: ComponentReturn<TableMsg<S::Msg>, Silent>) {
        ComponentReturn::empty()
    }

    fn update(&mut self, msg: ComponentMsg<TableMsg<S::Msg>>) -> (ret: ComponentReturn<
        TableMsg<S::Msg>,
        Silent,
    >) {
        match msg.take() {
            TableMsg::Local(TableLocalMsg::MoveDown) => self.move_down(),
            TableMsg::Local(TableLocalMsg::MoveUp) => self.move_up(),
            TableMsg::Outer(_) => {},
        }
        ComponentReturn::empty()
    }

    fn handle_event(&self, evt: ComponentEvent) -> (msgs: Vec<ComponentMsg<TableMsg<S::Msg>>>) {
        match evt {
            ComponentEvent::Key(key) => self.handle_key(key),
            _ => Vec::new(),
        }
    }
}

} // verus!
