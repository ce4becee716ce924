use vstd::prelude::*;
use vstd::string::*;
use crate::state::{AppState, AppStateView};
use crate::text::{same_text, split_commas, split_on, texts};

verus! {

/// Text of the menu item that switches between the two modes.
pub open spec fn mode_label_text(previous_mode: bool) -> Seq<char> {
    if previous_mode {
        "Previous mode: enabled"@
    } else {
        "Previous mode: disabled"@
    }
}

/// The switching mode a label names.
pub enum ModeLabel {
    Circular,
    Previous,
}

impl ModeLabel {
    /// Whether the label names "previous layout" mode.
    pub open spec fn names_previous(&self) -> bool {
        *self is Previous
    }

    /// The label's text.
    pub fn as_str(&self) -> (r: String)
        ensures
            r@ == mode_label_text(self.names_previous()),
    {
        let prefix = "Previous mode:";
        let r = match self {
            ModeLabel::Circular => String::from_str(prefix).concat(" disabled"),
            ModeLabel::Previous => String::from_str(prefix).concat(" enabled"),
        };
        proof {
            reveal_strlit("Previous mode:");
            reveal_strlit(" disabled");
            reveal_strlit(" enabled");
            reveal_strlit("Previous mode: disabled");
            reveal_strlit("Previous mode: enabled");
            assert("Previous mode:"@ + " disabled"@ =~= "Previous mode: disabled"@);
            assert("Previous mode:"@ + " enabled"@ =~= "Previous mode: enabled"@);
        }
        r
    }

    /// The text for the mode that is in force.
    pub fn get_label(is_enabled: &bool) -> (r: String)
        ensures
            r@ == mode_label_text(*is_enabled),
    {
        if *is_enabled {
            ModeLabel::Previous.as_str()
        } else {
            ModeLabel::Circular.as_str()
        }
    }
}


/// A prefix followed by a suffix.
fn joined(prefix: &str, suffix: &str) -> (r: String)
    ensures
        r@ == prefix@ + suffix@,
{
    String::from_str(prefix).concat(suffix)
}

/// Text of the menu item that pauses or resumes the switcher: it offers what
/// a click does.
pub open spec fn toggle_label_text(paused: bool) -> Seq<char> {
    if paused {
        "Resume"@
    } else {
        "Pause"@
    }
}

/// What the pause item offers.
pub enum ToggleLabel {
    Pause,
    Resume,
}

impl ToggleLabel {
    /// The label's text.
    pub fn as_str(&self) -> (r: &'static str)
        ensures
            r@ == toggle_label_text(*self is Resume),
    {
        match self {
            ToggleLabel::Pause => "Pause",
            ToggleLabel::Resume => "Resume",
        }
    }
}

/// Text of the menu item that turns start-up with the system on or off.
pub open spec fn autoload_label_text(enabled: bool) -> Seq<char> {
    if enabled {
        "Autoload: enabled"@
    } else {
        "Autoload: disabled"@
    }
}

/// Whether start-up with the system is on, as a label names it.
pub enum AutoloadLabel {
    Enabled,
    Disabled,
}

impl AutoloadLabel {
    /// The label's text.
    pub fn as_str(&self) -> (r: String)
        ensures
            r@ == autoload_label_text(*self is Enabled),
    {
        let prefix = "Autoload:";
        let r = match self {
            AutoloadLabel::Enabled => joined(prefix, " enabled"),
            AutoloadLabel::Disabled => joined(prefix, " disabled"),
        };
        proof {
            reveal_strlit("Autoload:");
            reveal_strlit(" disabled");
            reveal_strlit(" enabled");
            reveal_strlit("Autoload: disabled");
            reveal_strlit("Autoload: enabled");
            assert("Autoload:"@ + " disabled"@ =~= "Autoload: disabled"@);
            assert("Autoload:"@ + " enabled"@ =~= "Autoload: enabled"@);
        }
        r
    }

    /// The text for whether start-up with the system is on.
    pub fn get_label(is_enabled: bool) -> (r: String)
        ensures
            r@ == autoload_label_text(is_enabled),
    {
        if is_enabled {
            AutoloadLabel::Enabled.as_str()
        } else {
            AutoloadLabel::Disabled.as_str()
        }
    }
}

/// Text of the menu item that says whether Shift+CapsLock keeps its usual
/// meaning.
pub open spec fn capslock_label_text(enabled: bool) -> Seq<char> {
    if enabled {
        "Default CapsLock behaviour (Shift+CapsLock): enabled"@
    } else {
        "Default CapsLock behaviour (Shift+CapsLock): disabled"@
    }
}

/// Whether Shift+CapsLock keeps its usual meaning, as a label names it.
pub enum DefaultCapsLockBehaviourLabel {
    Enabled,
    Disabled,
}

impl DefaultCapsLockBehaviourLabel {
    /// The label's text.
    pub fn as_str(&self) -> (r: String)
        ensures
            r@ == capslock_label_text(*self is Enabled),
    {
        let prefix = "Default CapsLock behaviour (Shift+CapsLock):";
        let r = match self {
            DefaultCapsLockBehaviourLabel::Enabled => joined(prefix, " enabled"),
            DefaultCapsLockBehaviourLabel::Disabled => joined(prefix, " disabled"),
        };
        proof {
            reveal_strlit("Default CapsLock behaviour (Shift+CapsLock):");
            reveal_strlit(" disabled");
            reveal_strlit(" enabled");
            reveal_strlit("Default CapsLock behaviour (Shift+CapsLock): disabled");
            reveal_strlit("Default CapsLock behaviour (Shift+CapsLock): enabled");
            assert("Default CapsLock behaviour (Shift+CapsLock):"@ + " disabled"@
                =~= "Default CapsLock behaviour (Shift+CapsLock): disabled"@);
            assert("Default CapsLock behaviour (Shift+CapsLock):"@ + " enabled"@
                =~= "Default CapsLock behaviour (Shift+CapsLock): enabled"@);
        }
        r
    }

    /// The text for whether Shift+CapsLock keeps its usual meaning.
    pub fn get_label(is_enabled: &bool) -> (r: String)
        ensures
            r@ == capslock_label_text(*is_enabled),
    {
        if *is_enabled {
            DefaultCapsLockBehaviourLabel::Enabled.as_str()
        } else {
            DefaultCapsLockBehaviourLabel::Disabled.as_str()
        }
    }
}

/// Each label text tells its two states apart.
pub proof fn lemma_labels_tell_states_apart()
    ensures
        mode_label_text(true) != mode_label_text(false),
        toggle_label_text(true) != toggle_label_text(false),
        autoload_label_text(true) != autoload_label_text(false),
        capslock_label_text(true) != capslock_label_text(false),
{
    reveal_strlit("Previous mode: enabled");
    reveal_strlit("Previous mode: disabled");
    reveal_strlit("Resume");
    reveal_strlit("Pause");
    reveal_strlit("Autoload: enabled");
    reveal_strlit("Autoload: disabled");
    reveal_strlit("Default CapsLock behaviour (Shift+CapsLock): enabled");
    reveal_strlit("Default CapsLock behaviour (Shift+CapsLock): disabled");
    assert(mode_label_text(true).len() != mode_label_text(false).len());
    assert(toggle_label_text(true).len() != toggle_label_text(false).len());
    assert(autoload_label_text(true).len() != autoload_label_text(false).len());
    assert(capslock_label_text(true).len() != capslock_label_text(false).len());
}


/// Id of the menu item that pauses or resumes the switcher.
pub open spec fn toggle_id() -> Seq<char> {
    "toggle"@
}

/// Id of the menu item that switches between the two modes.
pub open spec fn mode_id() -> Seq<char> {
    "mode"@
}

/// Id of the menu item that turns start-up with the system on or off.
pub open spec fn autoload_id() -> Seq<char> {
    "autoload"@
}

/// Id of the menu item for the Shift+CapsLock behaviour.
pub open spec fn capslock_id() -> Seq<char> {
    "default_capslock_behaviour"@
}

/// Id of the menu item that quits.
pub open spec fn quit_id() -> Seq<char> {
    "quit"@
}

/// What a click on a menu item asks for.
#[derive(Clone, Copy, Debug, PartialEq, Eq, Structural)]
pub enum MenuCommand {
    Quit,
    Autoload,
    Mode,
    Toggle,
    DefaultCapsLockBehaviour,
    /// An item that no handler answers.
    Other,
}

/// The command that belongs to a menu item's id.
pub open spec fn command_of(id: Seq<char>) -> MenuCommand {
    if id == quit_id() {
        MenuCommand::Quit
    } else if id == autoload_id() {
        MenuCommand::Autoload
    } else if id == mode_id() {
        MenuCommand::Mode
    } else if id == toggle_id() {
        MenuCommand::Toggle
    } else if id == capslock_id() {
        MenuCommand::DefaultCapsLockBehaviour
    } else {
        MenuCommand::Other
    }
}

impl MenuCommand {
    /// The command that a click on the item with this id asks for.
    pub fn from_id(id: &str) -> (r: MenuCommand)
        ensures
            r == command_of(id@),
    {
        if same_text(id, "quit") {
            MenuCommand::Quit
        } else if same_text(id, "autoload") {
            MenuCommand::Autoload
        } else if same_text(id, "mode") {
            MenuCommand::Mode
        } else if same_text(id, "toggle") {
            MenuCommand::Toggle
        } else if same_text(id, "default_capslock_behaviour") {
            MenuCommand::DefaultCapsLockBehaviour
        } else {
            MenuCommand::Other
        }
    }
}

/// What the build of the program says about itself.
pub struct PackageInfo {
    pub name: String,
    /// The authors, separated by commas.
    pub authors: String,
    pub license: String,
    pub version: String,
    pub repository: String,
    pub description: String,
}

/// The contents of the "About" dialog.
pub struct AboutInfo {
    pub name: String,
    pub authors: Vec<String>,
    pub license: String,
    pub version: String,
    pub website: String,
    pub website_label: String,
    pub comments: String,
}

/// The "About" dialog describes the package: its name, its authors one by
/// one, its license and version, its repository as the web site (labelled
/// "GitHub") and its description as the comments.
pub open spec fn describes(about: AboutInfo, package: PackageInfo) -> bool {
    &&& about.name@ == package.name@
    &&& texts(about.authors@) == split_on(package.authors@, ',')
    &&& about.license@ == package.license@
    &&& about.version@ == package.version@
    &&& about.website@ == package.repository@
    &&& about.website_label@ == "GitHub"@
    &&& about.comments@ == package.description@
}

/// The contents of the "About" dialog for this package.
pub fn get_metadata(package: &PackageInfo) -> (r: AboutInfo)
    ensures
        describes(r, *package),
{
    AboutInfo {
        name: package.name.clone(),
        authors: split_commas(package.authors.as_str()),
        license: package.license.clone(),
        version: package.version.clone(),
        website: package.repository.clone(),
        website_label: String::from_str("GitHub"),
        comments: package.description.clone(),
    }
}

/// A clickable menu item: its id, its text and whether it is enabled.
pub struct MenuEntry {
    pub id: String,
    pub text: String,
    pub enabled: bool,
}

/// The "About" menu item: its text and the dialog it opens.
pub struct AboutEntry {
    pub text: String,
    pub metadata: AboutInfo,
}

/// The tray menu, item by item; a separator stands between the item for the
/// Shift+CapsLock behaviour and the "About" item.
pub struct MenuItems {
    pub toggle: MenuEntry,
    pub prev_mode: MenuEntry,
    pub autoload: MenuEntry,
    pub default_capslock_behaviour: MenuEntry,
    pub about: AboutEntry,
    pub quit: MenuEntry,
}

/// A menu item with this id and text, enabled.
pub open spec fn is_entry(e: MenuEntry, id: Seq<char>, text: Seq<char>) -> bool {
    e.id@ == id && e.text@ == text && e.enabled
}

/// The tray menu for these settings: "Pause", the switching mode, whether
/// start-up with the system is on, the Shift+CapsLock behaviour, "About"
/// with the package's description, and "Quit"; every item enabled.
pub open spec fn menu_for(
    items: MenuItems,
    state: AppStateView,
    autoload_enabled: bool,
    package: PackageInfo,
) -> bool {
    &&& is_entry(items.toggle, toggle_id(), toggle_label_text(false))
    &&& is_entry(items.prev_mode, mode_id(), mode_label_text(state.previous_mode))
    &&& is_entry(items.autoload, autoload_id(), autoload_label_text(autoload_enabled))
    &&& is_entry(
        items.default_capslock_behaviour,
        capslock_id(),
        capslock_label_text(state.default_capslock_behaviour),
    )
    &&& items.about.text@ == "About"@
    &&& describes(items.about.metadata, package)
    &&& is_entry(items.quit, quit_id(), "Quit"@)
}

/// The tray menu for the current settings and start-up state.
pub fn get_menu_items(state: &AppState, autoload_enabled: bool, package: &PackageInfo) -> (r:
    MenuItems)
    ensures
        menu_for(r, state@, autoload_enabled, *package),
{
    let toggle = MenuEntry {
        id: String::from_str("toggle"),
        text: String::from_str(ToggleLabel::Pause.as_str()),
        enabled: true,
    };
    let prev_mode = MenuEntry {
        id: String::from_str("mode"),
        text: ModeLabel::get_label(&state.is_previous_mode()),
        enabled: true,
    };
    let autoload = MenuEntry {
        id: String::from_str("autoload"),
        text: AutoloadLabel::get_label(autoload_enabled),
        enabled: true,
    };
    let default_capslock_behaviour = MenuEntry {
        id: String::from_str("default_capslock_behaviour"),
        text: DefaultCapsLockBehaviourLabel::get_label(
            &state.is_default_capslock_behaviour_enabled(),
        ),
        enabled: true,
    };
    let quit = MenuEntry { id: String::from_str("quit"), text: String::from_str("Quit"), enabled: true };
    let metadata = get_metadata(package);
    let about = AboutEntry { text: String::from_str("About"), metadata };
    MenuItems { toggle, prev_mode, autoload, default_capslock_behaviour, about, quit }
}

/// Every clickable item of the menu is answered by its own command, and no
/// two items share an id.
pub proof fn lemma_menu_ids_dispatch(
    items: MenuItems,
    state: AppStateView,
    autoload_enabled: bool,
    package: PackageInfo,
)
    requires
        menu_for(items, state, autoload_enabled, package),
    ensures
        command_of(items.toggle.id@) == MenuCommand::Toggle,
        command_of(items.prev_mode.id@) == MenuCommand::Mode,
        command_of(items.autoload.id@) == MenuCommand::Autoload,
        command_of(items.default_capslock_behaviour.id@) == MenuCommand::DefaultCapsLockBehaviour,
        command_of(items.quit.id@) == MenuCommand::Quit,
        items.toggle.id@ != items.prev_mode.id@,
        items.toggle.id@ != items.autoload.id@,
        items.toggle.id@ != items.default_capslock_behaviour.id@,
        items.toggle.id@ != items.quit.id@,
        items.prev_mode.id@ != items.autoload.id@,
        items.prev_mode.id@ != items.default_capslock_behaviour.id@,
        items.prev_mode.id@ != items.quit.id@,
        items.autoload.id@ != items.default_capslock_behaviour.id@,
        items.autoload.id@ != items.quit.id@,
        items.default_capslock_behaviour.id@ != items.quit.id@,
{
    reveal_strlit("toggle");
    reveal_strlit("mode");
    reveal_strlit("autoload");
    reveal_strlit("default_capslock_behaviour");
    reveal_strlit("quit");
    assert(quit_id().len() == 4);
    assert(mode_id().len() == 4);
    assert(toggle_id().len() == 6);
    assert(autoload_id().len() == 8);
    assert(capslock_id().len() == 26);
    assert(quit_id() != mode_id()) by {
        assert(quit_id()[0] != mode_id()[0]);
    }
}


/// The program argument that start-up with the system passes, if any: the
/// "previous layout" flag exactly in that mode.
pub open spec fn autoload_args_text(previous_mode: bool) -> Option<Seq<char>> {
    if previous_mode {
        Some("--previous"@)
    } else {
        None
    }
}

/// The text of an optional string.
pub open spec fn opt_text(o: Option<String>) -> Option<Seq<char>> {
    match o {
        Some(s) => Some(s@),
        None => None,
    }
}

/// The program argument for start-up with the system in this mode.
pub fn autoload_args(previous_mode: bool) -> (r: Option<String>)
    ensures
        opt_text(r) == autoload_args_text(previous_mode),
{
    if previous_mode {
        Some(String::from_str("--previous"))
    } else {
        None
    }
}

/// What to do about start-up with the system, as plain values.
pub enum AutoloadPlan {
    Leave,
    Remove,
    Install(Option<Seq<char>>),
}

/// What to do about start-up with the system.
pub enum AutoloadRequest {
    /// Leave it as it is.
    Leave,
    /// Turn it off.
    Remove,
    /// Turn it on (or renew it), passing `args` to the program.
    Install { args: Option<String> },
}

impl View for AutoloadRequest {
    type V = AutoloadPlan;

    open spec fn view(&self) -> AutoloadPlan {
        match self {
            AutoloadRequest::Leave => AutoloadPlan::Leave,
            AutoloadRequest::Remove => AutoloadPlan::Remove,
            AutoloadRequest::Install { args } => AutoloadPlan::Install(opt_text(*args)),
        }
    }
}

/// What a click on the autoload item asks for: turn start-up off when it is
/// on, and otherwise turn it on with the argument for the given mode.
pub fn autoload_request(autoload_enabled: bool, previous_mode: bool) -> (r: AutoloadRequest)
    ensures
        r@ == (if autoload_enabled {
            AutoloadPlan::Remove
        } else {
            AutoloadPlan::Install(autoload_args_text(previous_mode))
        }),
{
    if autoload_enabled {
        AutoloadRequest::Remove
    } else {
        AutoloadRequest::Install { args: autoload_args(previous_mode) }
    }
}

/// A click on the autoload item, for the current settings.
pub fn autoload_handler(state: &AppState, autoload_enabled: bool) -> (r: AutoloadRequest)
    ensures
        r@ == (if autoload_enabled {
            AutoloadPlan::Remove
        } else {
            AutoloadPlan::Install(autoload_args_text(state@.previous_mode))
        }),
{
    autoload_request(autoload_enabled, state.is_previous_mode())
}

/// The new text of the autoload item once a request was carried out: only a
/// request that succeeded changes it, to say whether start-up is now on.
pub fn autoload_outcome_text(request: &AutoloadRequest, succeeded: bool) -> (r: Option<String>)
    ensures
        r is Some <==> (succeeded && !(request@ is Leave)),
        r matches Some(t) ==> t@ == autoload_label_text(request@ is Install),
{
    if !succeeded {
        return None;
    }
    match request {
        AutoloadRequest::Leave => None,
        AutoloadRequest::Remove => Some(AutoloadLabel::Disabled.as_str()),
        AutoloadRequest::Install { .. } => Some(AutoloadLabel::Enabled.as_str()),
    }
}

/// What a click on the mode item changes in the menu and at start-up.
pub struct ModeChange {
    /// The new text of the mode item.
    pub text: String,
    /// What to do about start-up with the system.
    pub autoload: AutoloadRequest,
}

/// A click on the mode item: flip the mode, show the new mode, and, when the
/// switcher starts with the system, start it in the new mode from now on.
pub fn mode_hander(state: &mut AppState, autoload_enabled: bool) -> (r: ModeChange)
    ensures
        final(state)@ == old(state)@.toggled_previous_mode(),
        final(state)@ == after_click(old(state)@, MenuCommand::Mode),
        r.text@ == mode_label_text(final(state)@.previous_mode),
        r.autoload@ == (if autoload_enabled {
            AutoloadPlan::Install(autoload_args_text(final(state)@.previous_mode))
        } else {
            AutoloadPlan::Leave
        }),
{
    let is_prev_mode = state.toggle_previous_mode();
    let text = ModeLabel::get_label(&is_prev_mode);
    let autoload = if autoload_enabled {
        AutoloadRequest::Install { args: autoload_args(is_prev_mode) }
    } else {
        AutoloadRequest::Leave
    };
    ModeChange { text, autoload }
}

/// A click on the pause item: flip the pause flag and return the item's new
/// text, which offers the opposite.
pub fn toggle_handler(state: &mut AppState) -> (r: &'static str)
    ensures
        final(state)@ == old(state)@.toggled_pause(),
        final(state)@ == after_click(old(state)@, MenuCommand::Toggle),
        r@ == toggle_label_text(final(state)@.paused),
{
    let is_paused = state.toggle_pause();
    if is_paused {
        ToggleLabel::Resume.as_str()
    } else {
        ToggleLabel::Pause.as_str()
    }
}

/// A click on the Shift+CapsLock item: flip the behaviour and return the
/// item's new text.
pub fn default_capslock_behaviour_handler(state: &mut AppState) -> (r: String)
    ensures
        final(state)@ == old(state)@.toggled_default_capslock(),
        final(state)@ == after_click(old(state)@, MenuCommand::DefaultCapsLockBehaviour),
        r@ == capslock_label_text(final(state)@.default_capslock_behaviour),
{
    let is_enabled = state.toggle_default_capslock_behaviour();
    DefaultCapsLockBehaviourLabel::get_label(&is_enabled)
}

/// The settings after a click on the menu: the pause, mode and Shift+CapsLock
/// items each flip their own setting; the other items change no setting.
pub open spec fn after_click(state: AppStateView, command: MenuCommand) -> AppStateView {
    match command {
        MenuCommand::Toggle => state.toggled_pause(),
        MenuCommand::Mode => state.toggled_previous_mode(),
        MenuCommand::DefaultCapsLockBehaviour => state.toggled_default_capslock(),
        _ => state,
    }
}

/// The texts of the menu items that show a setting.
pub struct MenuTexts {
    pub toggle: Seq<char>,
    pub prev_mode: Seq<char>,
    pub default_capslock_behaviour: Seq<char>,
}

/// The texts that the menu shows.
pub open spec fn menu_texts(items: MenuItems) -> MenuTexts {
    MenuTexts {
        toggle: items.toggle.text@,
        prev_mode: items.prev_mode.text@,
        default_capslock_behaviour: items.default_capslock_behaviour.text@,
    }
}

/// The menu shows these settings.
pub open spec fn texts_match(texts: MenuTexts, state: AppStateView) -> bool {
    &&& texts.toggle == toggle_label_text(state.paused)
    &&& texts.prev_mode == mode_label_text(state.previous_mode)
    &&& texts.default_capslock_behaviour == capslock_label_text(state.default_capslock_behaviour)
}

/// The texts after a click: the clicked item takes the text its handler
/// returns for the new settings; the other items keep theirs.
pub open spec fn texts_after_click(texts: MenuTexts, state: AppStateView, command: MenuCommand) -> MenuTexts {
    let next = after_click(state, command);
    match command {
        MenuCommand::Toggle => MenuTexts { toggle: toggle_label_text(next.paused), ..texts },
        MenuCommand::Mode => MenuTexts { prev_mode: mode_label_text(next.previous_mode), ..texts },
        MenuCommand::DefaultCapsLockBehaviour => MenuTexts {
            default_capslock_behaviour: capslock_label_text(next.default_capslock_behaviour),
            ..texts
        },
        _ => texts,
    }
}

/// The settings and the texts after a sequence of clicks, in order.
pub open spec fn run_clicks(state: AppStateView, texts: MenuTexts, clicks: Seq<MenuCommand>) -> (
    AppStateView,
    MenuTexts,
)
    decreases clicks.len(),
{
    if clicks.len() == 0 {
        (state, texts)
    } else {
        run_clicks(
            after_click(state, clicks[0]),
            texts_after_click(texts, state, clicks[0]),
            clicks.drop_first(),
        )
    }
}

/// A fresh menu shows the settings it was made for, as long as the switcher
/// is not paused (the pause item always starts by offering "Pause").
pub proof fn lemma_fresh_menu_shows_settings(
    items: MenuItems,
    state: AppStateView,
    autoload_enabled: bool,
    package: PackageInfo,
)
    requires
        menu_for(items, state, autoload_enabled, package),
        !state.paused,
    ensures
        texts_match(menu_texts(items), state),
{
}

/// The menu keeps showing the settings over any sequence of clicks, each
/// answered by its handler.
pub proof fn lemma_clicks_keep_menu_in_step(
    state: AppStateView,
    texts: MenuTexts,
    clicks: Seq<MenuCommand>,
)
    requires
        texts_match(texts, state),
    ensures
        texts_match(run_clicks(state, texts, clicks).1, run_clicks(state, texts, clicks).0),
    decreases clicks.len(),
{
    if clicks.len() > 0 {
        lemma_clicks_keep_menu_in_step(
            after_click(state, clicks[0]),
            texts_after_click(texts, state, clicks[0]),
            clicks.drop_first(),
        );
    }
}

/// The keyboard hook changes only the remembered layout, which the menu does
/// not show, so the menu keeps showing the settings across key presses.
pub proof fn lemma_layout_memory_is_not_shown(
    texts: MenuTexts,
    state: AppStateView,
    layout: Option<crate::state::Hkl>,
)
    requires
        texts_match(texts, state),
    ensures
        texts_match(texts, state.with_prev_layout(layout)),
{
}

/// The arguments the program is started with: its own name, then the
/// argument, if any.
pub open spec fn launch_args(program: Seq<char>, arg: Option<Seq<char>>) -> Seq<Seq<char>> {
    match arg {
        Some(a) => seq![program, a],
        None => seq![program],
    }
}

/// Start-up with the system keeps the mode: a program started with the
/// argument that autoload records for a mode starts in that mode.
pub proof fn lemma_autoload_args_restore_mode(program: Seq<char>, previous_mode: bool)
    ensures
        crate::state::args_ask_previous_mode(
            launch_args(program, autoload_args_text(previous_mode)),
        ) == previous_mode,
{
}

} // verus!
