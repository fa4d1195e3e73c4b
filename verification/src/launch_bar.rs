use vstd::prelude::*;
use crate::action::Action;
use crate::command::Silent;
use crate::component::Component;
use crate::component_return::empty_return;
use crate::component_return::ComponentReturn;
use crate::component_return::ReturnModel;
use crate::envelope::ComponentMsg;
use crate::event::ComponentEvent;
use crate::event::Input;
use crate::event::InputKey;
use crate::nav::nav_of_command;
use crate::nav::str_equal;
use crate::nav::Nav;
use crate::notification::Notification;
use crate::notification::NotificationKind;
use crate::notification::NOTIFICATION_TIMEOUT;
use crate::text_area::area_copy_lines;
use crate::text_area::area_cursor;
use crate::text_area::area_cursor_at;
use crate::text_area::area_delete_line_by_end;
use crate::text_area::area_first_line;
use crate::text_area::area_handle;
use crate::text_area::area_insert_str;
use crate::text_area::area_lines;
use crate::text_area::area_move_head;
use crate::text_area::area_new;
use crate::text_area::area_selecting;
use crate::text_area::area_valid;
use crate::text_area::one_piece;
use crate::text_area::remove_first;
use crate::text_area::strip_first;
use crate::text_area::EditArea;

verus! {

/// What the launch bar is told.
#[derive(Debug)]
pub enum LaunchBarMsg {
    AppendCommand(Input),
    Quit,
    NavTo(Nav),
    Error(String),
    Loop,
    Esc,
}

/// The command bar: one line of text behind a prompt.
pub struct LaunchBar {
    pub area: EditArea,
}

/// The prompt that stands before the command.
pub open spec fn prompt() -> Seq<char> {
    " $> "@
}

/// The command typed so far: the first line without the prompt.
pub open spec fn current_command(bar: LaunchBar) -> Seq<char> {
    strip_first(area_lines(bar.area)[0], prompt())
}

/// Whether the bar holds one line and no selection is under way in it.
pub open spec fn plain_line(bar: LaunchBar) -> bool {
    area_lines(bar.area).len() == 1 && !area_selecting(bar.area)
}

/// Whether the bar shows the prompt and nothing else, with the cursor behind it.
pub open spec fn empty_prompt(bar: LaunchBar) -> bool {
    &&& area_lines(bar.area) == seq![prompt()]
    &&& area_cursor(bar.area) == (0int, 4int)
    &&& !area_selecting(bar.area)
}

/// The text that tells the user of a command that names no screen.
pub open spec fn unknown_command_text(command: Seq<char>) -> Seq<char> {
    "Command "@ + command + " not recognized"@
}

/// What a raw event means to the bar. Backspace on an empty command does nothing; `q`
/// on an empty command types `q!`; tab is swallowed; enter quits on `q!`, navigates on
/// the name of a screen, complains about any other command and closes the bar on an
/// empty one; escape closes the bar; anything else is typed.
pub open spec fn launch_event(
    bar: LaunchBar,
    evt: ComponentEvent,
    msgs: Seq<ComponentMsg<LaunchBarMsg>>,
) -> bool {
    let input = Input::of_event(evt);
    let current = current_command(bar);
    match input.key {
        InputKey::Backspace => if current.len() == 0 {
            msgs == Seq::<ComponentMsg<LaunchBarMsg>>::empty()
        } else {
            msgs == seq![ComponentMsg(LaunchBarMsg::AppendCommand(input))]
        },
        InputKey::Char(c) => if c == 'q' && current.len() == 0 {
            msgs == seq![
                ComponentMsg(LaunchBarMsg::AppendCommand(input)),
                ComponentMsg(
                    LaunchBarMsg::AppendCommand(
                        Input { key: InputKey::Char('!'), ctrl: false, alt: false, shift: false },
                    ),
                ),
            ]
        } else {
            msgs == seq![ComponentMsg(LaunchBarMsg::AppendCommand(input))]
        },
        InputKey::Tab => msgs == seq![ComponentMsg(LaunchBarMsg::Loop)],
        InputKey::Enter => if current == "q!"@ {
            msgs == seq![ComponentMsg(LaunchBarMsg::Quit)]
        } else if current.len() != 0 {
            match nav_of_command(current) {
                Some(nav) => msgs == seq![ComponentMsg(LaunchBarMsg::NavTo(nav))],
                None => {
                    &&& msgs.len() == 1
                    &&& msgs[0].payload() is Error
                    &&& msgs[0].payload()->Error_0@ == unknown_command_text(current)
                },
            }
        } else {
            msgs == seq![ComponentMsg(LaunchBarMsg::Esc)]
        },
        InputKey::Esc => msgs == seq![ComponentMsg(LaunchBarMsg::Esc)],
        _ => msgs == seq![ComponentMsg(LaunchBarMsg::AppendCommand(input))],
    }
}

/// What `update` does with each message: typing goes to the editing area, everything
/// else leaves the bar as it is and becomes an action for the root.
pub open spec fn launch_updated(
    pre: LaunchBar,
    msg: LaunchBarMsg,
    next: LaunchBar,
    ret: ReturnModel<LaunchBarMsg>,
) -> bool {
    match msg {
        LaunchBarMsg::AppendCommand(_) => area_valid(next.area) && ret == empty_return::<
            LaunchBarMsg,
        >(),
        LaunchBarMsg::Quit => next == pre && ret == (ReturnModel::<LaunchBarMsg> {
            msgs: Seq::empty(),
            cmds: Seq::empty(),
            actions: seq![Action::Quit],
        }),
        LaunchBarMsg::Esc => next == pre && ret == (ReturnModel::<LaunchBarMsg> {
            msgs: Seq::empty(),
            cmds: Seq::empty(),
            actions: seq![Action::Esc],
        }),
        LaunchBarMsg::NavTo(nav) => next == pre && ret == (ReturnModel::<LaunchBarMsg> {
            msgs: Seq::empty(),
            cmds: Seq::empty(),
            actions: seq![Action::NavTo(nav)],
        }),
        LaunchBarMsg::Error(err) => next == pre && ret == (ReturnModel::<LaunchBarMsg> {
            msgs: Seq::empty(),
            cmds: Seq::empty(),
            actions: seq![
                Action::Notification(
                    Notification {
                        msg: err,
                        kind: NotificationKind::Error,
                        timeout: NOTIFICATION_TIMEOUT,
                    },
                ),
            ],
        }),
        LaunchBarMsg::Loop => next == pre && ret == empty_return::<LaunchBarMsg>(),
    }
}

/// What clearing does to the bar: a bar of one line with no selection under way comes
/// out showing the empty prompt.
pub open spec fn bar_cleared(pre: LaunchBar, next: LaunchBar) -> bool {
    &&& area_valid(next.area)
    &&& plain_line(pre) ==> empty_prompt(next)
}

impl Default for LaunchBar {
    fn default() -> (out: LaunchBar)
        ensures
            out.wf(),
            empty_prompt(out),
    {
        let mut area = area_new();
        proof {
            reveal_strlit(" $> ");
            assert(Seq::<char>::empty().take(0) + " $> "@ + Seq::<char>::empty().skip(0) =~= prompt());
        }
        area_insert_str(&mut area, " $> ");
        assert(area_lines(area) =~= seq![prompt()]);
        LaunchBar { area }
    }
}

impl LaunchBar {
    /// The editing area is valid.
    pub open spec fn wf(self) -> bool {
        area_valid(self.area)
    }

    /// The lines of the bar, for painting.
    pub fn lines(&self) -> (out: Vec<String>)
        ensures
            crate::record::texts(out@) == area_lines(self.area),
    {
        area_copy_lines(&self.area)
    }

    /// Where the cursor stands, for painting: the line, and the character in it.
    pub fn cursor(&self) -> (out: (usize, usize))
        ensures
            area_cursor(self.area) == (out.0 as int, out.1 as int),
    {
        area_cursor_at(&self.area)
    }

    /// The command typed so far.
    pub fn current(&self) -> (out: String)
        requires
            self.wf(),
        ensures
            out@ == current_command(*self),
    {
        let line = area_first_line(&self.area);
        remove_first(line.as_str(), " $> ")
    }

    /// Resets the line under the cursor to the prompt.
    pub fn clear(&mut self)
        requires
            old(self).wf(),
        ensures
            final(self).wf(),
            bar_cleared(*old(self), *final(self)),
    {
        let ghost before = self.area;
        area_move_head(&mut self.area);
        let ghost at_head = self.area;
        let deleted = area_delete_line_by_end(&mut self.area);
        let ghost emptied = self.area;
        proof {
            reveal_strlit(" $> ");
            if plain_line(*old(self)) {
                let line = area_lines(before)[0];
                assert(area_cursor(at_head) == (0int, 0int));
                assert(line.take(0) =~= Seq::<char>::empty());
                assert(area_valid(at_head));
                assert(area_lines(at_head) == area_lines(before));
                assert(area_lines(emptied).len() == 1);
                assert(area_lines(emptied)[0] =~= Seq::<char>::empty());
                assert(area_lines(emptied) =~= seq![Seq::<char>::empty()]);
                assert(area_cursor(emptied) == (0int, 0int));
                assert(Seq::<char>::empty().take(0) + " $> "@ + Seq::<char>::empty().skip(0)
                    =~= prompt());
            }
        }
        area_insert_str(&mut self.area, " $> ");
        proof {
            if plain_line(*old(self)) {
                assert(area_lines(self.area) =~= seq![prompt()]);
            }
        }
    }
}

impl Component for LaunchBar {
    type Msg = LaunchBarMsg;

    type Props = ();

    type Pending = Silent;

    open spec fn inv(&self) -> bool {
        self.wf()
    }

    open spec fn init_spec(&self, props: (), next: Self, ret: ReturnModel<LaunchBarMsg>) -> bool {
        next == *self && ret == empty_return::<LaunchBarMsg>()
    }

    open spec fn update_spec(
        &self,
        msg: LaunchBarMsg,
        next: Self,
        ret: ReturnModel<LaunchBarMsg>,
    ) -> bool {
        launch_updated(*self, msg, next, ret)
    }

    open spec fn event_spec(&self, evt: ComponentEvent, msgs: Seq<ComponentMsg<LaunchBarMsg>>) -> bool {
        launch_event(*self, evt, msgs)
    }

    fn init(&mut self, props: ()) -> (ret: ComponentReturn<LaunchBarMsg, Silent>) {
        ComponentReturn::empty()
    }

    fn update(&mut self, msg: ComponentMsg<LaunchBarMsg>) -> (ret: ComponentReturn<
        LaunchBarMsg,
        Silent,
    >) {
        match msg.take() {
            LaunchBarMsg::AppendCommand(input) => {
                let modified = area_handle(&mut self.area, input);
                ComponentReturn::empty()
            },
            LaunchBarMsg::Quit => ComponentReturn::action(Action::Quit),
            LaunchBarMsg::Esc => ComponentReturn::action(Action::Esc),
            LaunchBarMsg::NavTo(nav) => ComponentReturn::action(Action::NavTo(nav)),
            LaunchBarMsg::Error(err) => ComponentReturn::action(
                Action::Notification(Notification::error(err)),
            ),
            LaunchBarMsg::Loop => ComponentReturn::empty(),
        }
    }

    fn handle_event(&self, evt: ComponentEvent) -> (msgs: Vec<ComponentMsg<LaunchBarMsg>>) {
        let input = Input::from_event(evt);
        let current = self.current();
        let empty = current.as_str().is_empty();
        let mut msgs: Vec<ComponentMsg<LaunchBarMsg>> = Vec::new();
        match input.key {
            InputKey::Backspace => {
                if !empty {
                    msgs.push(ComponentMsg(LaunchBarMsg::AppendCommand(input)));
                    assert(msgs@ =~= seq![ComponentMsg(LaunchBarMsg::AppendCommand(input))]);
                }
            },
            InputKey::Char(c) => {
                msgs.push(ComponentMsg(LaunchBarMsg::AppendCommand(input)));
                if c == 'q' && empty {
                    msgs.push(
                        ComponentMsg(LaunchBarMsg::AppendCommand(Input::plain(InputKey::Char('!')))),
                    );
                    assert(msgs@ =~= seq![
                        ComponentMsg(LaunchBarMsg::AppendCommand(input)),
                        ComponentMsg(
                            LaunchBarMsg::AppendCommand(
                                Input {
                                    key: InputKey::Char('!'),
                                    ctrl: false,
                                    alt: false,
                                    shift: false,
                                },
                            ),
                        ),
                    ]);
                } else {
                    assert(msgs@ =~= seq![ComponentMsg(LaunchBarMsg::AppendCommand(input))]);
                }
            },
            InputKey::Tab => {
                msgs.push(ComponentMsg(LaunchBarMsg::Loop));
                assert(msgs@ =~= seq![ComponentMsg(LaunchBarMsg::Loop)]);
            },
            InputKey::Enter => {
                if str_equal(current.as_str(), "q!") {
                    msgs.push(ComponentMsg(LaunchBarMsg::Quit));
                    assert(msgs@ =~= seq![ComponentMsg(LaunchBarMsg::Quit)]);
                } else if !empty {
                    match Nav::parse(current.as_str()) {
                        Ok(nav) => {
                            msgs.push(ComponentMsg(LaunchBarMsg::NavTo(nav)));
                            assert(msgs@ =~= seq![ComponentMsg(LaunchBarMsg::NavTo(nav))]);
                        },
                        Err(err) => {
                            msgs.push(ComponentMsg(LaunchBarMsg::Error(err.message())));
                        },
                    }
                } else {
                    msgs.push(ComponentMsg(LaunchBarMsg::Esc));
                    assert(msgs@ =~= seq![ComponentMsg(LaunchBarMsg::Esc)]);
                }
            },
            InputKey::Esc => {
                msgs.push(ComponentMsg(LaunchBarMsg::Esc));
                assert(msgs@ =~= seq![ComponentMsg(LaunchBarMsg::Esc)]);
            },
            _ => {
                msgs.push(ComponentMsg(LaunchBarMsg::AppendCommand(input)));
                assert(msgs@ =~= seq![ComponentMsg(LaunchBarMsg::AppendCommand(input))]);
            },
        }
        msgs
    }
}

} // verus!
