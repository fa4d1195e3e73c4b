use vstd::prelude::*;

verus! {

/// A screen that the user can be routed to.
#[derive(Debug, Clone, Copy, PartialEq, Eq, Structural)]
pub enum Nav {
    ConnectorsList,
    AssetsList,
    PoliciesList,
    ContractDefinitionsList,
    ContractNegotiations,
    TransferProcesses,
}

/// An entry of the header's tab bar.
#[derive(Debug, Clone, Copy, PartialEq, Eq, Structural)]
pub enum Menu {
    Connectors,
    Assets,
    Policies,
    ContractDefinitions,
    ContractNegotiations,
    TransferProcesses,
}

/// A launch-bar command that names no screen.
pub struct UnknownCommand {
    pub command: String,
}

/// The words that the launch bar understands.
pub open spec fn nav_of_command(command: Seq<char>) -> Option<Nav> {
    if command == "connectors"@ {
        Some(Nav::ConnectorsList)
    } else if command == "assets"@ {
        Some(Nav::AssetsList)
    } else if command == "policies"@ {
        Some(Nav::PoliciesList)
    } else {
        None
    }
}

/// Number of tabs.
pub const MENU_COUNT: usize = 6;

impl Default for Nav {
    fn default() -> (out: Nav)
        ensures
            out == Nav::ConnectorsList,
    {
        Nav::ConnectorsList
    }
}

impl Default for Menu {
    fn default() -> (out: Menu)
        ensures
            out == Menu::Connectors,
    {
        Menu::Connectors
    }
}

impl Nav {
    /// Reads a launch-bar command. Only `connectors`, `assets` and `policies` name a
    /// screen; anything else is handed back in the error.
    pub fn parse(command: &str) -> (out: Result<Nav, UnknownCommand>)
        ensures
            match nav_of_command(command@) {
                Some(nav) => out == Ok::<Nav, UnknownCommand>(nav),
                None => out is Err && out->Err_0.command@ == command@,
            },
    {
        if str_equal(command, "connectors") {
            Ok(Nav::ConnectorsList)
        } else if str_equal(command, "assets") {
            Ok(Nav::AssetsList)
        } else if str_equal(command, "policies") {
            Ok(Nav::PoliciesList)
        } else {
            Err(UnknownCommand { command: command.to_owned() })
        }
    }

    /// The tab that shows this screen.
    pub open spec fn menu_spec(self) -> Menu {
        match self {
            Nav::ConnectorsList => Menu::Connectors,
            Nav::AssetsList => Menu::Assets,
            Nav::PoliciesList => Menu::Policies,
            Nav::ContractDefinitionsList => Menu::ContractDefinitions,
            Nav::ContractNegotiations => Menu::ContractNegotiations,
            Nav::TransferProcesses => Menu::TransferProcesses,
        }
    }

    pub fn menu(self) -> (out: Menu)
        ensures
            out == self.menu_spec(),
    {
        match self {
            Nav::ConnectorsList => Menu::Connectors,
            Nav::AssetsList => Menu::Assets,
            Nav::PoliciesList => Menu::Policies,
            Nav::ContractDefinitionsList => Menu::ContractDefinitions,
            Nav::ContractNegotiations => Menu::ContractNegotiations,
            Nav::TransferProcesses => Menu::TransferProcesses,
        }
    }
}

impl UnknownCommand {
    /// The text shown to the user.
    pub open spec fn message_spec(self) -> Seq<char> {
        "Command "@ + self.command@ + " not recognized"@
    }

    pub fn message(&self) -> (out: String)
        ensures
            out@ == self.message_spec(),
    {
        let mut out = "Command ".to_owned();
        append_str(&mut out, self.command.as_str());
        append_str(&mut out, " not recognized");
        out
    }
}

impl Menu {
    /// Position of the tab, from the left.
    pub open spec fn ordinal_spec(self) -> int {
        match self {
            Menu::Connectors => 0,
            Menu::Assets => 1,
            Menu::Policies => 2,
            Menu::ContractDefinitions => 3,
            Menu::ContractNegotiations => 4,
            Menu::TransferProcesses => 5,
        }
    }

    pub fn ordinal(self) -> (out: usize)
        ensures
            out == self.ordinal_spec(),
            out < MENU_COUNT,
    {
        match self {
            Menu::Connectors => 0,
            Menu::Assets => 1,
            Menu::Policies => 2,
            Menu::ContractDefinitions => 3,
            Menu::ContractNegotiations => 4,
            Menu::TransferProcesses => 5,
        }
    }

    /// The tab at a position, if there is one.
    pub fn from_ordinal(ordinal: usize) -> (out: Option<Menu>)
        ensures
            ordinal < MENU_COUNT ==> out is Some && out->Some_0.ordinal_spec() == ordinal,
            ordinal >= MENU_COUNT ==> out is None,
    {
        if ordinal == 0 {
            Some(Menu::Connectors)
        } else if ordinal == 1 {
            Some(Menu::Assets)
        } else if ordinal == 2 {
            Some(Menu::Policies)
        } else if ordinal == 3 {
            Some(Menu::ContractDefinitions)
        } else if ordinal == 4 {
            Some(Menu::ContractNegotiations)
        } else if ordinal == 5 {
            Some(Menu::TransferProcesses)
        } else {
            None
        }
    }

    /// The tab to the right, wrapping around at the end.
    pub open spec fn next_spec(self) -> Menu {
        match self {
            Menu::Connectors => Menu::Assets,
            Menu::Assets => Menu::Policies,
            Menu::Policies => Menu::ContractDefinitions,
            Menu::ContractDefinitions => Menu::ContractNegotiations,
            Menu::ContractNegotiations => Menu::TransferProcesses,
            Menu::TransferProcesses => Menu::Connectors,
        }
    }

    pub fn next(self) -> (out: Menu)
        ensures
            out == self.next_spec(),
            out.ordinal_spec() == (self.ordinal_spec() + 1) % 6,
    {
        let idx: usize = (self.ordinal() + 1) % MENU_COUNT;
        match Menu::from_ordinal(idx) {
            Some(menu) => menu,
            None => self,
        }
    }

    /// The screen behind this tab.
    pub open spec fn nav_spec(self) -> Nav {
        match self {
            Menu::Connectors => Nav::ConnectorsList,
            Menu::Assets => Nav::AssetsList,
            Menu::Policies => Nav::PoliciesList,
            Menu::ContractDefinitions => Nav::ContractDefinitionsList,
            Menu::ContractNegotiations => Nav::ContractNegotiations,
            Menu::TransferProcesses => Nav::TransferProcesses,
        }
    }

    pub fn nav(self) -> (out: Nav)
        ensures
            out == self.nav_spec(),
    {
        match self {
            Menu::Connectors => Nav::ConnectorsList,
            Menu::Assets => Nav::AssetsList,
            Menu::Policies => Nav::PoliciesList,
            Menu::ContractDefinitions => Nav::ContractDefinitionsList,
            Menu::ContractNegotiations => Nav::ContractNegotiations,
            Menu::TransferProcesses => Nav::TransferProcesses,
        }
    }

    /// The label of the tab.
    pub open spec fn name_spec(self) -> Seq<char> {
        match self {
            Menu::Connectors => "Connectors"@,
            Menu::Assets => "Assets"@,
            Menu::Policies => "Policies"@,
            Menu::ContractDefinitions => "ContractDefinitions"@,
            Menu::ContractNegotiations => "ContractNegotiations"@,
            Menu::TransferProcesses => "TransferProcesses"@,
        }
    }

    pub fn name(self) -> (out: String)
        ensures
            out@ == self.name_spec(),
    {
        match self {
            Menu::Connectors => "Connectors".to_owned(),
            Menu::Assets => "Assets".to_owned(),
            Menu::Policies => "Policies".to_owned(),
            Menu::ContractDefinitions => "ContractDefinitions".to_owned(),
            Menu::ContractNegotiations => "ContractNegotiations".to_owned(),
            Menu::TransferProcesses => "TransferProcesses".to_owned(),
        }
    }

    /// The tab at a position, counted from the left; the first tab for any other number.
    pub open spec fn at_spec(ordinal: int) -> Menu {
        if ordinal == 1 {
            Menu::Assets
        } else if ordinal == 2 {
            Menu::Policies
        } else if ordinal == 3 {
            Menu::ContractDefinitions
        } else if ordinal == 4 {
            Menu::ContractNegotiations
        } else if ordinal == 5 {
            Menu::TransferProcesses
        } else {
            Menu::Connectors
        }
    }

    /// The labels of all tabs, from the left.
    pub fn names() -> (out: Vec<String>)
        ensures
            out@.len() == MENU_COUNT,
            forall|i: int| 0 <= i < 6 ==> (#[trigger] out@[i])@ == Menu::at_spec(i).name_spec(),
    {
        let mut out: Vec<String> = Vec::new();
        let mut menu = Menu::Connectors;
        let mut i: usize = 0;
        while i < MENU_COUNT
            invariant
                i <= MENU_COUNT,
                out@.len() == i,
                menu == Menu::at_spec(i as int) || i == MENU_COUNT,
                forall|k: int| 0 <= k < i ==> (#[trigger] out@[k])@ == Menu::at_spec(k).name_spec(),
            decreases MENU_COUNT - i,
        {
            out.push(menu.name());
            menu = menu.next();
            i += 1;
        }
        out
    }
}

/// Tabs and screens correspond one to one.
pub proof fn lemma_menu_nav_round_trip(menu: Menu, nav: Nav)
    ensures
        menu.nav_spec().menu_spec() == menu,
        nav.menu_spec().nav_spec() == nav,
{
}

/// Whether two string slices hold the same characters.
pub fn str_equal(a: &str, b: &str) -> (out: bool)
    ensures
        out == (a@ == b@),
{
    let left = a.to_owned();
    let right = b.to_owned();
    left == right
}

/// Appends `tail` to `text`.
pub fn append_str(text: &mut String, tail: &str)
    ensures
        final(text)@ == old(text)@ + tail@,
{
    text.append(tail);
}

} // verus!
