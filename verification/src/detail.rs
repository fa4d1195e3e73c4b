use vstd::prelude::*;
use crate::action::Action;
use crate::command::Command;
use crate::command::Silent;
use crate::command::Work;
use crate::component::Component;
use crate::component_return::ComponentReturn;
use crate::component_return::ReturnModel;
use crate::component_return::empty_return;
use crate::envelope::ComponentMsg;
use crate::event::ComponentEvent;
use crate::event::KeyCode;
use crate::event::KeyEvent;
use crate::info::put;
use crate::info::InfoSheet;
use crate::info::InfoSheetModel;
use crate::notification::Notification;
use crate::notification::NotificationKind;
use crate::notification::NOTIFICATION_TIMEOUT;
use crate::record::Field;
use crate::record::Resource;

verus! {

/// What the detail screen tells itself.
#[derive(Debug, Clone, Copy, PartialEq, Eq, Structural)]
pub enum ResourceMsg {
    MoveUp,
    MoveDown,
    Yank,
}

/// The detail screen of one resource: its fields, one of them selected, and how far
/// the view is scrolled.
pub struct ResourceComponent {
    pub resource: Option<Resource>,
    pub name: String,
    pub selected_field: usize,
    /// The first row of the fields that is visible.
    pub scroll_y: u16,
}

/// The rows that the first `count` fields take, one below the other.
pub open spec fn heights_sum(fields: Seq<Field>, count: int) -> int
    decreases count,
{
    if count <= 0 || count > fields.len() {
        0
    } else {
        heights_sum(fields, count - 1) + fields[count - 1].value.height_spec()
    }
}

/// A number of rows as the screen can hold it.
pub open spec fn clip_rows(rows: int) -> u16 {
    if rows > u16::MAX {
        u16::MAX
    } else if rows < 0 {
        0
    } else {
        rows as u16
    }
}

/// The rows that the first `count` fields take, or all fields if there are fewer.
pub fn rows_of(fields: &Vec<Field>, count: usize) -> (out: u16)
    ensures
        out == clip_rows(
            heights_sum(
                fields@,
                if count <= fields@.len() {
                    count as int
                } else {
                    fields@.len() as int
                },
            ),
        ),
{
    let limit: usize = if count <= fields.len() {
        count
    } else {
        fields.len()
    };
    let mut total: u16 = 0;
    let mut i: usize = 0;
    while i < limit
        invariant
            i <= limit <= fields@.len(),
            total == clip_rows(heights_sum(fields@, i as int)),
            heights_sum(fields@, i as int) >= 0,
        decreases limit - i,
    {
        let height = fields[i].value().height();
        assert(heights_sum(fields@, i + 1) == heights_sum(fields@, i as int) + height);
        total = total.saturating_add(height);
        i += 1;
    }
    total
}

/// The scroll position that shows field `idx`: the rows of all fields before the one
/// above it.
pub open spec fn scroll_for(fields: Seq<Field>, idx: int) -> u16 {
    let above = if idx == 0 {
        0
    } else {
        idx - 1
    };
    clip_rows(heights_sum(fields, if above <= fields.len() {
        above
    } else {
        fields.len() as int
    }))
}

/// The detail screen after moving the selection up: one field up unless the first
/// field is selected or nothing is shown, with the view scrolled to the new field.
pub open spec fn detail_moved_up(detail: ResourceComponent) -> ResourceComponent {
    match detail.resource {
        Some(res) => if detail.selected_field != 0 {
            ResourceComponent {
                selected_field: (detail.selected_field - 1) as usize,
                scroll_y: scroll_for(res.fields@, detail.selected_field - 1),
                ..detail
            }
        } else {
            detail
        },
        None => detail,
    }
}

/// The detail screen after moving the selection down: one field down unless the last
/// field is selected or nothing is shown, with the view scrolled to the new field.
pub open spec fn detail_moved_down(detail: ResourceComponent) -> ResourceComponent {
    match detail.resource {
        Some(res) => if res.fields@.len() > 0 && detail.selected_field != res.fields@.len() - 1
            && detail.selected_field < usize::MAX {
            ResourceComponent {
                selected_field: (detail.selected_field + 1) as usize,
                scroll_y: scroll_for(res.fields@, detail.selected_field + 1),
                ..detail
            }
        } else {
            detail
        },
        None => detail,
    }
}

/// The text of the banner that confirms a copy.
pub open spec fn copied_text(field_name: Seq<char>) -> Seq<char> {
    "Value of '"@ + field_name + "' field copied!"@
}

/// What copying the selected field hands back: a command that puts the field's value
/// on the clipboard and an informational banner that names the field; nothing when no
/// field is selected.
pub open spec fn yank_spec(detail: ResourceComponent, ret: ReturnModel<ResourceMsg>) -> bool {
    if detail.resource is Some && detail.selected_field < detail.resource->Some_0.fields@.len() {
        let field = detail.resource->Some_0.fields@[detail.selected_field as int];
        &&& ret.msgs.len() == 0
        &&& ret.cmds.len() == 1
        &&& ret.cmds[0].work is Copy
        &&& ret.cmds[0].work->Copy_text@ == field.value.text()
        &&& forall|o: crate::command::Outcome| #[trigger] (ret.cmds[0].on_done)(o).len() == 0
        &&& ret.actions.len() == 1
        &&& ret.actions[0] is Notification
        &&& ret.actions[0]->Notification_0.kind == NotificationKind::Info
        &&& ret.actions[0]->Notification_0.timeout == NOTIFICATION_TIMEOUT
        &&& ret.actions[0]->Notification_0.msg@ == copied_text(field.name@)
    } else {
        ret == empty_return::<ResourceMsg>()
    }
}

/// What a key means to the detail screen.
pub open spec fn detail_key_spec(key: KeyEvent) -> Seq<ComponentMsg<ResourceMsg>> {
    match key.code {
        KeyCode::Char(c) => if c == 'j' {
            seq![ComponentMsg(ResourceMsg::MoveDown)]
        } else if c == 'k' {
            seq![ComponentMsg(ResourceMsg::MoveUp)]
        } else if c == 'y' {
            seq![ComponentMsg(ResourceMsg::Yank)]
        } else {
            Seq::empty()
        },
        KeyCode::Down => seq![ComponentMsg(ResourceMsg::MoveDown)],
        KeyCode::Up => seq![ComponentMsg(ResourceMsg::MoveUp)],
        _ => Seq::empty(),
    }
}

/// The info sheet of a detail screen.
pub open spec fn detail_sheet() -> InfoSheetModel {
    InfoSheetModel {
        info: Seq::empty(),
        key_bindings: put(
            put(put(Seq::empty(), "<j/down>"@, "Down"@), "<k/down>"@, "Up"@),
            "<y>"@,
            "Copy value"@,
        ),
    }
}

impl ResourceComponent {
    /// The keys that do something on a detail screen.
    pub fn info_sheet(&self) -> (out: InfoSheet)
        ensures
            out.wf(),
            out@ == detail_sheet(),
    {
        InfoSheet::default().key_binding("<j/down>", "Down").key_binding(
            "<k/down>",
            "Up",
        ).key_binding("<y>", "Copy value")
    }

    /// A detail screen that shows nothing yet.
    pub fn new(name: String) -> (out: Self)
        ensures
            out == (ResourceComponent { resource: None, name, selected_field: 0, scroll_y: 0 }),
    {
        ResourceComponent { resource: None, name, selected_field: 0, scroll_y: 0 }
    }

    /// Shows another resource, or none. Selection and scroll position stay.
    pub fn update_resource(&mut self, resource: Option<Resource>)
        ensures
            *final(self) == (ResourceComponent { resource, ..*old(self) }),
    {
        self.resource = resource;
    }

    /// The rows that all fields take together.
    pub fn fields_height(&self) -> (out: u16)
        ensures
            out == match self.resource {
                Some(res) => clip_rows(heights_sum(res.fields@, res.fields@.len() as int)),
                None => 0u16,
            },
    {
        match &self.resource {
            Some(res) => rows_of(&res.fields, res.fields.len()),
            None => 0,
        }
    }

    /// The rows that the fields before field `idx` take together.
    pub fn fields_height_at(&self, idx: usize) -> (out: u16)
        ensures
            out == match self.resource {
                Some(res) => clip_rows(
                    heights_sum(
                        res.fields@,
                        if idx <= res.fields@.len() {
                            idx as int
                        } else {
                            res.fields@.len() as int
                        },
                    ),
                ),
                None => 0u16,
            },
    {
        match &self.resource {
            Some(res) => rows_of(&res.fields, idx),
            None => 0,
        }
    }

    /// The height of each field, from the top.
    pub fn field_constraints(&self) -> (out: Vec<u16>)
        ensures
            match self.resource {
                Some(res) => {
                    &&& out@.len() == res.fields@.len()
                    &&& forall|i: int|
                        0 <= i < out@.len() ==> #[trigger] out@[i]
                            == res.fields@[i].value.height_spec()
                },
                None => out@.len() == 0,
            },
    {
        let mut out: Vec<u16> = Vec::new();
        match &self.resource {
            Some(res) => {
                let mut i: usize = 0;
                while i < res.fields.len()
                    invariant
                        i <= res.fields@.len(),
                        out@.len() == i,
                        forall|k: int|
                            0 <= k < i ==> #[trigger] out@[k] == res.fields@[k].value.height_spec(),
                    decreases res.fields@.len() - i,
                {
                    out.push(res.fields[i].value().height());
                    i += 1;
                }
            },
            None => {},
        }
        out
    }

    pub fn handle_key(&self, key: KeyEvent) -> (msgs: Vec<ComponentMsg<ResourceMsg>>)
        ensures
            msgs@ == detail_key_spec(key),
    {
        let mut msgs: Vec<ComponentMsg<ResourceMsg>> = Vec::new();
        match key.code {
            KeyCode::Char(c) => {
                if c == 'j' {
                    msgs.push(ComponentMsg(ResourceMsg::MoveDown));
                } else if c == 'k' {
                    msgs.push(ComponentMsg(ResourceMsg::MoveUp));
                } else if c == 'y' {
                    msgs.push(ComponentMsg(ResourceMsg::Yank));
                }
            },
            KeyCode::Down => {
                msgs.push(ComponentMsg(ResourceMsg::MoveDown));
            },
            KeyCode::Up => {
                msgs.push(ComponentMsg(ResourceMsg::MoveUp));
            },
            _ => {},
        }
        assert(msgs@ =~= detail_key_spec(key));
        msgs
    }

    /// Copies the value of the selected field and says so.
    pub fn yank(&self) -> (ret: ComponentReturn<ResourceMsg, Silent>)
        ensures
            yank_spec(*self, ret@),
    {
        match &self.resource {
            Some(res) => {
                if self.selected_field < res.fields.len() {
                    let field = &res.fields[self.selected_field];
                    let text = field.value().as_str().to_owned();
                    let mut msg = "Value of '".to_owned();
                    msg.append(field.name());
                    msg.append("' field copied!");
                    let mut ret = ComponentReturn::cmd(Command::new(Work::Copy { text }, Silent));
                    ret.actions.push(Action::Notification(Notification::info(msg)));
                    return ret;
                }
            },
            None => {},
        }
        ComponentReturn::empty()
    }

    pub fn move_up(&mut self)
        ensures
            *final(self) == detail_moved_up(*old(self)),
    {
        if self.resource.is_some() && self.selected_field != 0 {
            self.selected_field -= 1;
            self.scroll_to_field(self.selected_field);
        }
    }

    pub fn move_down(&mut self)
        ensures
            *final(self) == detail_moved_down(*old(self)),
    {
        let len: usize = match &self.resource {
            Some(res) => res.fields.len(),
            None => 0,
        };
        if len > 0 && self.selected_field != len - 1 && self.selected_field < usize::MAX {
            self.selected_field += 1;
            self.scroll_to_field(self.selected_field);
        }
    }

    /// Scrolls so that the field above field `idx` is the first one visible.
    pub fn scroll_to_field(&mut self, idx: usize)
        ensures
            *final(self) == (ResourceComponent {
                scroll_y: match old(self).resource {
                    Some(res) => scroll_for(res.fields@, idx as int),
                    None => 0u16,
                },
                ..*old(self)
            }),
    {
        let ref_field: usize = if idx == 0 {
            0
        } else {
            idx - 1
        };
        self.scroll_y = self.fields_height_at(ref_field);
    }
}

impl Component for ResourceComponent {
    type Msg = ResourceMsg;

    type Props = ();

    type Pending = Silent;

    open spec fn inv(&self) -> bool {
        true
    }

    open spec fn init_spec(&self, props: (), next: Self, ret: ReturnModel<ResourceMsg>) -> bool {
        next == *self && ret == empty_return::<ResourceMsg>()
    }

    open spec fn update_spec(&self, msg: ResourceMsg, next: Self, ret: ReturnModel<ResourceMsg>) -> bool {
        match msg {
            ResourceMsg::MoveUp => next == detail_moved_up(*self) && ret == empty_return::<
                ResourceMsg,
            >(),
            ResourceMsg::MoveDown => next == detail_moved_down(*self) && ret == empty_return::<
                ResourceMsg,
            >(),
            ResourceMsg::Yank => next == *self && yank_spec(*self, ret),
        }
    }

    open spec fn event_spec(&self, evt: ComponentEvent, msgs: Seq<ComponentMsg<ResourceMsg>>) -> bool {
        msgs == match evt {
            ComponentEvent::Key(key) => detail_key_spec(key),
            _ => Seq::empty(),
        }
    }

    fn init(&mut self, props: ()) -> (ret: ComponentReturn<ResourceMsg, Silent>) {
        ComponentReturn::empty()
    }

    fn update(&mut self, msg: ComponentMsg<ResourceMsg>) -> (ret: ComponentReturn<ResourceMsg, Silent>) {
        match msg.take() {
            ResourceMsg::MoveUp => self.move_up(),
            ResourceMsg::MoveDown => self.move_down(),
            ResourceMsg::Yank => {
                return self.yank();
            },
        }
        ComponentReturn::empty()
    }

    fn handle_event(&self, evt: ComponentEvent) -> (msgs: Vec<ComponentMsg<ResourceMsg>>) {
        match evt {
            ComponentEvent::Key(key) => self.handle_key(key),
            _ => Vec::new(),
        }
    }
}

} // verus!
