//! What the administration panel does with a button press: the routing of
//! button identifiers, the forms and target lists that buttons open, and
//! the confirmations of destructive actions.
use vstd::prelude::*;
use crate::admin::BooruRow;
use crate::num::{dec_int, i64_to_string, parse_i64, parse_i64_spec};
use crate::outside::opt_string_view;
use crate::panel::{
    add_booru_modal, add_server_tag_modal, add_tags_modal, back_button, bv, channel_id_inputs,
    guild_modal, iv, row_view, rows_view, setting_modal, setting_modal_spec, Button, ButtonStyle,
    ButtonView, InputField, Modal, ModalView, Page, PageView, EMBED_COLOR, WARNING_COLOR,
};
use crate::records::{ChannelConfig, Server, TagPattern};
use crate::text::{cat2, cat3, cat4, cat5, chars_of, copy_string, has_prefix, split_once_seq, split_once_str, split_seq, split_vec, str_eq, strip_prefix, string_of, string_views, subvec, views, Sep};

verus! {

/// What a component identifier asks for.
pub enum ComponentRoute<T> {
    /// `ac:{category}`: show a category page.
    Category(T),
    /// `aa:{category}:{action}`: an action button of a category page.
    Action(T),
    /// `as:...`: a target chosen from a list.
    Target(T),
    /// `ay:...`: a confirmed action.
    Confirmed(T),
    /// `an`: back to the main menu.
    MainMenu,
    /// `dm:{id}`: the send-to-DM button of a posted image.
    DmButton,
    /// Anything else: ignored.
    Ignore,
}

impl View for ComponentRoute<String> {
    type V = ComponentRoute<Seq<char>>;

    open spec fn view(&self) -> ComponentRoute<Seq<char>> {
        match self {
            ComponentRoute::Category(t) => ComponentRoute::Category(t@),
            ComponentRoute::Action(t) => ComponentRoute::Action(t@),
            ComponentRoute::Target(t) => ComponentRoute::Target(t@),
            ComponentRoute::Confirmed(t) => ComponentRoute::Confirmed(t@),
            ComponentRoute::MainMenu => ComponentRoute::MainMenu,
            ComponentRoute::DmButton => ComponentRoute::DmButton,
            ComponentRoute::Ignore => ComponentRoute::Ignore,
        }
    }
}

pub open spec fn component_route_spec(id: Seq<char>) -> ComponentRoute<Seq<char>> {
    if has_prefix(id, "ac:"@) {
        ComponentRoute::Category(id.skip(3))
    } else if has_prefix(id, "aa:"@) {
        ComponentRoute::Action(id.skip(3))
    } else if has_prefix(id, "as:"@) {
        ComponentRoute::Target(id.skip(3))
    } else if has_prefix(id, "ay:"@) {
        ComponentRoute::Confirmed(id.skip(3))
    } else if id == "an"@ {
        ComponentRoute::MainMenu
    } else if has_prefix(id, "dm:"@) {
        ComponentRoute::DmButton
    } else {
        ComponentRoute::Ignore
    }
}

/// Routes a component (button) identifier.
pub fn component_route(custom_id: &str) -> (r: ComponentRoute<String>)
    ensures
        r@ == component_route_spec(custom_id@),
{
    proof {
        reveal_strlit("ac:");
        reveal_strlit("aa:");
        reveal_strlit("as:");
        reveal_strlit("ay:");
    }
    if let Some(rest) = strip_prefix(custom_id, "ac:") {
        return ComponentRoute::Category(rest);
    }
    if let Some(rest) = strip_prefix(custom_id, "aa:") {
        return ComponentRoute::Action(rest);
    }
    if let Some(rest) = strip_prefix(custom_id, "as:") {
        return ComponentRoute::Target(rest);
    }
    if let Some(rest) = strip_prefix(custom_id, "ay:") {
        return ComponentRoute::Confirmed(rest);
    }
    if str_eq(custom_id, "an") {
        return ComponentRoute::MainMenu;
    }
    if strip_prefix(custom_id, "dm:").is_some() {
        return ComponentRoute::DmButton;
    }
    ComponentRoute::Ignore
}

/// Whether a click may be handled: the panel is for the bot's admin and
/// moderators only.
#[derive(Clone, Copy, Debug, PartialEq, Eq, Structural)]
pub enum PanelPermission {
    Allowed,
    AdminOnly,
}

/// The clicks that belong to the administration panel.
pub open spec fn is_panel_route(route: ComponentRoute<Seq<char>>) -> bool {
    ||| route is Category
    ||| route is Action
    ||| route is Target
    ||| route is Confirmed
    ||| route is MainMenu
}

pub open spec fn panel_permission_spec(panel: bool, is_admin: bool, is_moderator: bool) -> PanelPermission {
    if panel && !is_admin && !is_moderator {
        PanelPermission::AdminOnly
    } else {
        PanelPermission::Allowed
    }
}

/// Who may click: a panel button only the admin or a moderator; the
/// send-to-DM button (and anything else) everyone.
pub fn component_permission(route: &ComponentRoute<String>, is_admin: bool, is_moderator: bool) -> (r:
    PanelPermission)
    ensures
        r == panel_permission_spec(is_panel_route(route@), is_admin, is_moderator),
{
    let panel = match route {
        ComponentRoute::DmButton | ComponentRoute::Ignore => false,
        _ => true,
    };
    if panel && !is_admin && !is_moderator {
        PanelPermission::AdminOnly
    } else {
        PanelPermission::Allowed
    }
}

/// Who may submit a form: a panel form (`am:...`) only the admin or a moderator.
pub fn modal_permission(custom_id: &str, is_admin: bool, is_moderator: bool) -> (r: PanelPermission)
    ensures
        r == panel_permission_spec(has_prefix(custom_id@, "am:"@), is_admin, is_moderator),
{
    let panel = strip_prefix(custom_id, "am:").is_some();
    if panel && !is_admin && !is_moderator {
        PanelPermission::AdminOnly
    } else {
        PanelPermission::Allowed
    }
}

/// A user who is neither the admin nor a moderator can act on no panel
/// button and no panel form: every category, action, target and confirmed
/// action, and every form, is refused.
pub proof fn law_panel_only_for_admin_and_moderators(custom_id: Seq<char>)
    ensures
        is_panel_route(component_route_spec(custom_id)) ==> panel_permission_spec(
            is_panel_route(component_route_spec(custom_id)),
            false,
            false,
        ) == PanelPermission::AdminOnly,
        component_route_spec(custom_id) is Confirmed ==> panel_permission_spec(
            is_panel_route(component_route_spec(custom_id)),
            false,
            false,
        ) == PanelPermission::AdminOnly,
        has_prefix(custom_id, "am:"@) ==> panel_permission_spec(
            has_prefix(custom_id, "am:"@),
            false,
            false,
        ) == PanelPermission::AdminOnly,
{
}

/// The pages of the panel's categories.
#[derive(Clone, Copy, Debug, PartialEq, Eq, Structural)]
pub enum CategoryKind {
    Tags,
    ServerTags,
    Boorus,
    Channels,
    Validate,
    Settings,
    Main,
}

pub open spec fn category_kind_spec(category: Seq<char>) -> CategoryKind {
    if category == "tags"@ {
        CategoryKind::Tags
    } else if category == "server_tags"@ {
        CategoryKind::ServerTags
    } else if category == "boorus"@ {
        CategoryKind::Boorus
    } else if category == "channels"@ {
        CategoryKind::Channels
    } else if category == "validate"@ {
        CategoryKind::Validate
    } else if category == "settings"@ {
        CategoryKind::Settings
    } else {
        CategoryKind::Main
    }
}

/// The page a category name shows; an unknown one shows the main menu.
pub fn category_kind(category: &str) -> (r: CategoryKind)
    ensures
        r == category_kind_spec(category@),
{
    if str_eq(category, "tags") {
        CategoryKind::Tags
    } else if str_eq(category, "server_tags") {
        CategoryKind::ServerTags
    } else if str_eq(category, "boorus") {
        CategoryKind::Boorus
    } else if str_eq(category, "channels") {
        CategoryKind::Channels
    } else if str_eq(category, "validate") {
        CategoryKind::Validate
    } else if str_eq(category, "settings") {
        CategoryKind::Settings
    } else {
        CategoryKind::Main
    }
}

/// The category of a form identifier `am:{category}:...` (`main` otherwise).
pub open spec fn modal_category_spec(custom_id: Seq<char>) -> Seq<char> {
    if has_prefix(custom_id, "am:"@) {
        split_seq(custom_id.skip(3), Sep::Char(':'))[0]
    } else {
        "main"@
    }
}

pub fn extract_category_from_modal_id(custom_id: &str) -> (r: String)
    ensures
        r@ == modal_category_spec(custom_id@),
{
    proof {
        reveal_strlit("am:");
    }
    match strip_prefix(custom_id, "am:") {
        Some(rest) => {
            let v = chars_of(rest.as_str());
            let pieces = split_vec(&v, Sep::Char(':'));
            proof {
                crate::text::lemma_split_len(v@, Sep::Char(':'));
            }
            string_of(&pieces[0])
        },
        None => String::from_str("main"),
    }
}

// ---------------------------------------------------------------------------
// Action buttons
// ---------------------------------------------------------------------------

/// Which list of targets a button asks to choose from.
pub enum TargetKind<T> {
    Boorus,
    /// Tag patterns, for the category page to go back to.
    Patterns(T),
    Channels,
    Settings,
    ServerTags,
}

/// What an action button does: open a form, list targets to choose from
/// (with the action they are for and the list's title), start a reload, or
/// tell that the action is not available.
pub enum ActionResponse<T, M> {
    Form(M),
    Targets { kind: TargetKind<T>, action: T, title: T },
    Reload,
    NotAvailable,
}

impl View for TargetKind<String> {
    type V = TargetKind<Seq<char>>;

    open spec fn view(&self) -> TargetKind<Seq<char>> {
        match self {
            TargetKind::Boorus => TargetKind::Boorus,
            TargetKind::Patterns(t) => TargetKind::Patterns(t@),
            TargetKind::Channels => TargetKind::Channels,
            TargetKind::Settings => TargetKind::Settings,
            TargetKind::ServerTags => TargetKind::ServerTags,
        }
    }
}

impl View for ActionResponse<String, Modal> {
    type V = ActionResponse<Seq<char>, ModalView>;

    open spec fn view(&self) -> ActionResponse<Seq<char>, ModalView> {
        match self {
            ActionResponse::Form(m) => ActionResponse::Form(m@),
            ActionResponse::Targets { kind, action, title } => ActionResponse::Targets {
                kind: kind@,
                action: action@,
                title: title@,
            },
            ActionResponse::Reload => ActionResponse::Reload,
            ActionResponse::NotAvailable => ActionResponse::NotAvailable,
        }
    }
}

pub open spec fn targets(kind: TargetKind<Seq<char>>, action: Seq<char>, title: Seq<char>) -> ActionResponse<
    Seq<char>,
    ModalView,
> {
    ActionResponse::Targets { kind, action, title }
}

/// What the action button `aa:{category}:{action}` does (`is_admin`: the
/// bot's admin pressed it).
pub open spec fn action_spec(action_str: Seq<char>, is_admin: bool) -> ActionResponse<Seq<char>, ModalView> {
    let (c, rest) = split_once_seq(action_str, Sep::Char(':'));
    let a = match rest {
        Some(x) => x,
        None => Seq::<char>::empty(),
    };
    if c == "booru"@ && a == "add"@ {
        ActionResponse::Form(add_booru_modal())
    } else if c == "booru"@ && a == "edit"@ {
        targets(TargetKind::Boorus, "edit"@, "Select Booru to Edit"@)
    } else if c == "booru"@ && a == "delete"@ {
        targets(TargetKind::Boorus, "delete"@, "Select Booru to Delete"@)
    } else if c == "booru"@ && a == "toggle"@ {
        targets(TargetKind::Boorus, "toggle"@, "Select Booru to Toggle"@)
    } else if c == "booru"@ && a == "param"@ {
        targets(TargetKind::Boorus, "param"@, "Select Booru Parameters"@)
    } else if c == "tag"@ && a == "add"@ {
        ActionResponse::Form(add_tags_modal())
    } else if c == "tag"@ && a == "remove"@ {
        targets(TargetKind::Patterns("tags"@), "tags"@, "Select Tags to Remove"@)
    } else if c == "ch"@ && a == "add"@ {
        ActionResponse::Form(
            ModalView {
                custom_id: "am:channels:add"@,
                title: "Add Channel"@,
                inputs: channel_id_inputs(),
            },
        )
    } else if c == "ch"@ && a == "remove"@ {
        targets(TargetKind::Channels, "remove"@, "Select Channel to Remove"@)
    } else if c == "ch"@ && a == "set"@ {
        targets(TargetKind::Channels, "set"@, "Select Channel to Edit"@)
    } else if c == "ch"@ && a == "pattern"@ {
        targets(TargetKind::Channels, "pattern"@, "Select Channel Patterns"@)
    } else if c == "settings"@ && a == "add"@ {
        ActionResponse::Form(
            setting_modal_spec("am:settings:set"@, "Set/Edit Setting"@, ""@, ""@),
        )
    } else if c == "settings"@ && a == "edit"@ {
        targets(TargetKind::Settings, "edit"@, "Select Setting to Edit"@)
    } else if c == "settings"@ && a == "delete"@ {
        targets(TargetKind::Settings, "delete"@, "Select Setting to Delete"@)
    } else if c == "srvtag"@ && a == "add"@ {
        ActionResponse::Form(add_server_tag_modal())
    } else if c == "srvtag"@ && a == "remove"@ {
        targets(TargetKind::ServerTags, "remove"@, "Select Server Tag to Remove"@)
    } else if c == "reload"@ && a.len() == 0 {
        ActionResponse::Reload
    } else if c == "val"@ && a == "validate"@ && is_admin {
        ActionResponse::Form(guild_modal("am:validate:validate"@, "Validate Server"@))
    } else if c == "val"@ && a == "unvalidate"@ && is_admin {
        ActionResponse::Form(guild_modal("am:validate:unvalidate"@, "Unvalidate Server"@))
    } else {
        ActionResponse::NotAvailable
    }
}

/// The category of an action button's id: the text before the first `:`.
pub open spec fn category_part(a: Seq<char>) -> Seq<char> {
    split_once_seq(a, Sep::Char(':')).0
}

/// The action of an action button's id: the text after the first `:`
/// (empty when there is none).
pub open spec fn action_part(a: Seq<char>) -> Seq<char> {
    match split_once_seq(a, Sep::Char(':')).1 {
        Some(x) => x,
        None => Seq::<char>::empty(),
    }
}

/// A list of targets that an action button opens is for the action that the
/// button's id names: a booru, channel, setting or server-tag list carries
/// the action part of the id, under the matching category; the pattern list
/// is opened by the Tags page's Remove button alone. And each booru button
/// `edit`, `delete`, `toggle` and `param` opens the booru list for that very
/// action.
pub proof fn law_target_lists_carry_the_button_action(a: Seq<char>, is_admin: bool)
    ensures
        match action_spec(a, is_admin) {
            ActionResponse::Targets { kind, action, .. } => match kind {
                TargetKind::Boorus => category_part(a) == "booru"@ && action == action_part(a),
                TargetKind::Channels => category_part(a) == "ch"@ && action == action_part(a),
                TargetKind::Settings => category_part(a) == "settings"@ && action == action_part(a),
                TargetKind::ServerTags => category_part(a) == "srvtag"@ && action == action_part(a),
                TargetKind::Patterns(c) => category_part(a) == "tag"@ && action_part(a) == "remove"@
                    && c == "tags"@ && action == "tags"@,
            },
            _ => true,
        },
        category_part(a) == "booru"@ && (action_part(a) == "edit"@ || action_part(a) == "delete"@
            || action_part(a) == "toggle"@ || action_part(a) == "param"@) ==> (action_spec(
            a,
            is_admin,
        ) matches ActionResponse::Targets { kind: TargetKind::Boorus, action, .. } && action
            == action_part(a)),
{
    reveal_strlit("add");
    reveal_strlit("edit");
    reveal_strlit("delete");
    reveal_strlit("toggle");
    reveal_strlit("param");
    let x = action_part(a);
    assert("add"@.len() == 3 && "edit"@.len() == 4 && "delete"@.len() == 6 && "toggle"@.len() == 6
        && "param"@.len() == 5);
    assert("add"@ != "edit"@ && "add"@ != "delete"@ && "add"@ != "toggle"@ && "add"@ != "param"@);
    assert("delete"@[0] != "toggle"@[0]);
    assert("edit"@ != "delete"@ && "edit"@ != "toggle"@ && "edit"@ != "param"@);
    assert("delete"@ != "toggle"@ && "delete"@ != "param"@ && "toggle"@ != "param"@);
    if category_part(a) == "booru"@ {
        if x == "edit"@ {
            assert(action_spec(a, is_admin) == targets(TargetKind::Boorus, "edit"@, "Select Booru to Edit"@));
        } else if x == "delete"@ {
            assert(action_spec(a, is_admin) == targets(TargetKind::Boorus, "delete"@, "Select Booru to Delete"@));
        } else if x == "toggle"@ {
            assert(action_spec(a, is_admin) == targets(TargetKind::Boorus, "toggle"@, "Select Booru to Toggle"@));
        } else if x == "param"@ {
            assert(action_spec(a, is_admin) == targets(TargetKind::Boorus, "param"@, "Select Booru Parameters"@));
        }
    }
}

/// The channel buttons `remove`, `set` and `pattern`, the setting buttons
/// `edit` and `delete` and the server-tag button `remove` each open the
/// list of their category for that very action, and the Tags page's
/// `remove` opens the pattern list; for the admin and for anyone else alike.
pub proof fn law_list_buttons_open_their_list(a: Seq<char>, is_admin: bool)
    ensures
        category_part(a) == "ch"@ && (action_part(a) == "remove"@ || action_part(a) == "set"@
            || action_part(a) == "pattern"@) ==> (action_spec(a, is_admin) matches ActionResponse::Targets {
            kind: TargetKind::Channels,
            action,
            ..
        } && action == action_part(a)),
        category_part(a) == "settings"@ && (action_part(a) == "edit"@ || action_part(a) == "delete"@)
            ==> (action_spec(a, is_admin) matches ActionResponse::Targets {
            kind: TargetKind::Settings,
            action,
            ..
        } && action == action_part(a)),
        category_part(a) == "srvtag"@ && action_part(a) == "remove"@ ==> (action_spec(
            a,
            is_admin,
        ) matches ActionResponse::Targets { kind: TargetKind::ServerTags, action, .. } && action
            == "remove"@),
        category_part(a) == "tag"@ && action_part(a) == "remove"@ ==> (action_spec(
            a,
            is_admin,
        ) matches ActionResponse::Targets { kind: TargetKind::Patterns(c), .. } && c == "tags"@),
{
    reveal_strlit("booru");
    reveal_strlit("tag");
    reveal_strlit("ch");
    reveal_strlit("settings");
    reveal_strlit("srvtag");
    reveal_strlit("add");
    reveal_strlit("edit");
    reveal_strlit("delete");
    reveal_strlit("remove");
    reveal_strlit("set");
    reveal_strlit("pattern");
    let c = category_part(a);
    let x = action_part(a);
    assert("booru"@.len() == 5 && "tag"@.len() == 3 && "ch"@.len() == 2 && "settings"@.len() == 8
        && "srvtag"@.len() == 6);
    assert("add"@.len() == 3 && "edit"@.len() == 4 && "delete"@.len() == 6 && "remove"@.len() == 6
        && "set"@.len() == 3 && "pattern"@.len() == 7);
    assert("add"@[0] != "set"@[0]);
    assert("delete"@[0] != "remove"@[0]);
    if c == "ch"@ {
        if x == "remove"@ {
            assert(action_spec(a, is_admin) == targets(TargetKind::Channels, "remove"@, "Select Channel to Remove"@));
        } else if x == "set"@ {
            assert(action_spec(a, is_admin) == targets(TargetKind::Channels, "set"@, "Select Channel to Edit"@));
        } else if x == "pattern"@ {
            assert(action_spec(a, is_admin) == targets(TargetKind::Channels, "pattern"@, "Select Channel Patterns"@));
        }
    } else if c == "settings"@ {
        if x == "edit"@ {
            assert(action_spec(a, is_admin) == targets(TargetKind::Settings, "edit"@, "Select Setting to Edit"@));
        } else if x == "delete"@ {
            assert(action_spec(a, is_admin) == targets(TargetKind::Settings, "delete"@, "Select Setting to Delete"@));
        }
    } else if c == "srvtag"@ && x == "remove"@ {
        assert(action_spec(a, is_admin) == targets(TargetKind::ServerTags, "remove"@, "Select Server Tag to Remove"@));
    } else if c == "tag"@ && x == "remove"@ {
        assert(action_spec(a, is_admin) == targets(TargetKind::Patterns("tags"@), "tags"@, "Select Tags to Remove"@));
    }
}

fn form_of(id: &str, title: &str, inputs: Vec<InputField>) -> (r: ActionResponse<String, Modal>)
    ensures
        r@ == ActionResponse::<Seq<char>, ModalView>::Form(
            ModalView { custom_id: id@, title: title@, inputs: inputs@.map_values(|x: InputField| x@) },
        ),
{
    ActionResponse::Form(Modal { custom_id: copy_string(id), title: copy_string(title), inputs })
}

fn targets_of(kind: TargetKind<String>, action: &str, title: &str) -> (r: ActionResponse<String, Modal>)
    ensures
        r@ == targets(kind@, action@, title@),
{
    ActionResponse::Targets { kind, action: copy_string(action), title: copy_string(title) }
}

fn one_input(i: InputField) -> (r: Vec<InputField>)
    ensures
        r@.map_values(|x: InputField| x@) == seq![i@],
{
    let mut v: Vec<InputField> = Vec::new();
    v.push(i);
    assert(v@.map_values(|x: InputField| x@) =~= seq![v@[0]@]);
    v
}

fn add_booru_form() -> (r: ActionResponse<String, Modal>)
    ensures
        r@ == ActionResponse::<Seq<char>, ModalView>::Form(add_booru_modal()),
{
    let mut v: Vec<InputField> = Vec::new();
    v.push(crate::panel::input(false, "Booru Name", "booru_name", true, Some("e.g. danbooru")));
    v.push(crate::panel::input(false, "Description", "description", false, Some("Optional slash command description")));
    v.push(crate::panel::input(true, "API URLs JSON", "urls_json", true, Some("{\"posts_url\":\"...\",\"count_url\":null,\"post_url\":\"...\"}")));
    v.push(crate::panel::input(true, "JSON Paths JSON", "paths_json", true, Some("{\"posts_path\":[\"posts\"],\"file_url_path\":[\"file_url\"],...}")));
    v.push(crate::panel::input(true, "Options JSON", "options_json", true, Some("{\"embed_image\":false,\"max_tags\":6,\"page_size\":100,...}")));
    assert(v@.map_values(|x: InputField| x@) =~= add_booru_modal().inputs);
    form_of("am:boorus:add", "Add Booru", v)
}

fn add_tags_form() -> (r: ActionResponse<String, Modal>)
    ensures
        r@ == ActionResponse::<Seq<char>, ModalView>::Form(add_tags_modal()),
{
    let mut v: Vec<InputField> = Vec::new();
    v.push(crate::panel::input(false, "Pattern Name", "pattern_name", true, None));
    v.push(crate::panel::input(false, "Booru Name", "booru_name", true, None));
    v.push(crate::panel::input(false, "Included Tags (comma-separated)", "included_tags", true, None));
    v.push(crate::panel::input(false, "Excluded Tags (comma-separated)", "excluded_tags", false, None));
    assert(v@.map_values(|x: InputField| x@) =~= add_tags_modal().inputs);
    form_of("am:tags:add", "Add Tags to Pattern", v)
}

/// The guild and channel inputs of the channel forms.
pub fn channel_inputs() -> (r: Vec<InputField>)
    ensures
        r@.map_values(|x: InputField| x@) == channel_id_inputs(),
{
    let mut v: Vec<InputField> = Vec::new();
    v.push(crate::panel::input(false, "Guild ID (leave empty for current)", "guild_id", false, None));
    v.push(crate::panel::input(false, "Channel ID", "channel_id", true, None));
    assert(v@.map_values(|x: InputField| x@) =~= channel_id_inputs());
    v
}

fn guild_form(id: &str, title: &str) -> (r: ActionResponse<String, Modal>)
    ensures
        r@ == ActionResponse::<Seq<char>, ModalView>::Form(guild_modal(id@, title@)),
{
    let v = one_input(crate::panel::input(false, "Guild ID", "guild_id", true, None));
    form_of(id, title, v)
}

/// What the action button `aa:{action_str}` does.
pub fn action_button(action_str: &str, is_admin: bool) -> (r: ActionResponse<String, Modal>)
    ensures
        r@ == action_spec(action_str@, is_admin),
{
    proof {
        reveal_strlit("");
    }
    let (c0, rest) = split_once_str(action_str, ':');
    let a0 = match rest {
        Some(x) => x,
        None => String::new(),
    };
    let c = c0.as_str();
    let a = a0.as_str();
    if str_eq(c, "booru") && str_eq(a, "add") {
        add_booru_form()
    } else if str_eq(c, "booru") && str_eq(a, "edit") {
        targets_of(TargetKind::Boorus, "edit", "Select Booru to Edit")
    } else if str_eq(c, "booru") && str_eq(a, "delete") {
        targets_of(TargetKind::Boorus, "delete", "Select Booru to Delete")
    } else if str_eq(c, "booru") && str_eq(a, "toggle") {
        targets_of(TargetKind::Boorus, "toggle", "Select Booru to Toggle")
    } else if str_eq(c, "booru") && str_eq(a, "param") {
        targets_of(TargetKind::Boorus, "param", "Select Booru Parameters")
    } else if str_eq(c, "tag") && str_eq(a, "add") {
        add_tags_form()
    } else if str_eq(c, "tag") && str_eq(a, "remove") {
        targets_of(TargetKind::Patterns(String::from_str("tags")), "tags", "Select Tags to Remove")
    } else if str_eq(c, "ch") && str_eq(a, "add") {
        form_of("am:channels:add", "Add Channel", channel_inputs())
    } else if str_eq(c, "ch") && str_eq(a, "remove") {
        targets_of(TargetKind::Channels, "remove", "Select Channel to Remove")
    } else if str_eq(c, "ch") && str_eq(a, "set") {
        targets_of(TargetKind::Channels, "set", "Select Channel to Edit")
    } else if str_eq(c, "ch") && str_eq(a, "pattern") {
        targets_of(TargetKind::Channels, "pattern", "Select Channel Patterns")
    } else if str_eq(c, "settings") && str_eq(a, "add") {
        ActionResponse::Form(setting_modal("am:settings:set", "Set/Edit Setting", "", ""))
    } else if str_eq(c, "settings") && str_eq(a, "edit") {
        targets_of(TargetKind::Settings, "edit", "Select Setting to Edit")
    } else if str_eq(c, "settings") && str_eq(a, "delete") {
        targets_of(TargetKind::Settings, "delete", "Select Setting to Delete")
    } else if str_eq(c, "srvtag") && str_eq(a, "add") {
        let v = one_input(
            crate::panel::input(false, "Tag Name", "tag_name", true, Some("Must match a configured tag pattern")),
        );
        assert(v@.map_values(|x: InputField| x@) =~= add_server_tag_modal().inputs);
        form_of("am:server_tags:add", "Add Server Tag", v)
    } else if str_eq(c, "srvtag") && str_eq(a, "remove") {
        targets_of(TargetKind::ServerTags, "remove", "Select Server Tag to Remove")
    } else if str_eq(c, "reload") && a.is_empty() {
        ActionResponse::Reload
    } else if str_eq(c, "val") && str_eq(a, "validate") && is_admin {
        guild_form("am:validate:validate", "Validate Server")
    } else if str_eq(c, "val") && str_eq(a, "unvalidate") && is_admin {
        guild_form("am:validate:unvalidate", "Unvalidate Server")
    } else {
        ActionResponse::NotAvailable
    }
}

// ---------------------------------------------------------------------------
// Target lists
// ---------------------------------------------------------------------------

/// A label of at most 70 characters: longer ones keep 67 and end in `...`.
pub open spec fn short_label_spec(label: Seq<char>) -> Seq<char> {
    if label.len() <= 70 {
        label
    } else {
        label.take(67) + "..."@
    }
}

pub fn short_label(label: &str) -> (r: String)
    ensures
        r@ == short_label_spec(label@),
{
    let v = chars_of(label);
    if v.len() <= 70 {
        copy_string(label)
    } else {
        let mut head = subvec(&v, 0, 67);
        crate::text::extend_str(&mut head, "...");
        assert(v@.subrange(0, 67) =~= v@.take(67));
        string_of(&head)
    }
}

pub open spec fn item_views(items: Seq<(String, String)>) -> Seq<(Seq<char>, Seq<char>)> {
    items.map_values(|i: (String, String)| (i.0@, i.1@))
}

/// The number of rows of target buttons: five per row, at most four rows.
pub open spec fn target_row_count(n: nat) -> nat {
    let full = (n + 4) / 5;
    if full > 4 {
        4
    } else {
        full as nat
    }
}

/// Row `r` of the target buttons.
pub open spec fn target_row(items: Seq<(Seq<char>, Seq<char>)>, r: int) -> Seq<ButtonView> {
    let len = if items.len() - 5 * r < 5 {
        items.len() - 5 * r
    } else {
        5
    };
    Seq::new(
        len as nat,
        |k: int| bv(items[5 * r + k].0, short_label_spec(items[5 * r + k].1), ButtonStyle::Primary, None),
    )
}

/// A page listing targets: their buttons five per row (at most four rows),
/// then a Back button.
pub open spec fn target_page_spec(
    title: Seq<char>,
    description: Seq<char>,
    items: Seq<(Seq<char>, Seq<char>)>,
    back_id: Seq<char>,
) -> PageView {
    PageView {
        title,
        description: if items.len() == 0 {
            description + "\nNo items available."@
        } else {
            description
        },
        fields: Seq::empty(),
        footer: None,
        color: EMBED_COLOR,
        rows: Seq::new(target_row_count(items.len()), |r: int| target_row(items, r)).push(
            seq![back_button(back_id)],
        ),
    }
}

/// The page that lists targets to choose from.
pub fn target_page(title: &str, description: &str, items: &Vec<(String, String)>, back_id: &str) -> (r:
    Page)
    ensures
        r@ == target_page_spec(title@, description@, item_views(items@), back_id@),
{
    let ghost iv = item_views(items@);
    let text = if items.len() == 0 {
        cat2(description, "\nNo items available.")
    } else {
        copy_string(description)
    };
    let mut rows: Vec<Vec<Button>> = Vec::new();
    let mut r: usize = 0;
    while r < 4 && 5 * r < items.len()
        invariant
            r <= 4,
            5 * r <= items.len() + 4,
            iv == item_views(items@),
            rows_view(rows@) == Seq::new(r as nat, |q: int| target_row(iv, q)),
            r <= target_row_count(items@.len()),
        decreases 4 - r,
    {
        let start = 5 * r;
        let end = if items.len() - start < 5 {
            items.len()
        } else {
            start + 5
        };
        let mut row: Vec<Button> = Vec::new();
        let mut k: usize = start;
        while k < end
            invariant
                start <= k <= end <= items.len(),
                start == 5 * r,
                end - start == (if items.len() - 5 * r < 5 {
                    items.len() - 5 * r
                } else {
                    5
                }),
                iv == item_views(items@),
                row_view(row@) == target_row(iv, r as int).take(k - start),
            decreases end - k,
        {
            let b = crate::panel::plain_button(
                items[k].0.as_str(),
                short_label(items[k].1.as_str()).as_str(),
                ButtonStyle::Primary,
            );
            let ghost before = row@;
            let ghost bview = b@;
            row.push(b);
            assert(row_view(row@) =~= row_view(before).push(bview));
            assert(target_row(iv, r as int).take(k + 1 - start) =~= target_row(iv, r as int).take(
                k - start,
            ).push(bview));
            k = k + 1;
        }
        assert(target_row(iv, r as int).take(end - start) =~= target_row(iv, r as int));
        let ghost rv = row_view(row@);
        let ghost before_rows = rows@;
        rows.push(row);
        assert(rows_view(rows@) =~= rows_view(before_rows).push(rv));
        assert(rows_view(rows@) =~= Seq::new((r + 1) as nat, |q: int| target_row(iv, q)));
        r = r + 1;
    }
    assert(r == target_row_count(items@.len()));
    let mut back_row: Vec<Button> = Vec::new();
    back_row.push(crate::panel::button(back_id, "Back", ButtonStyle::Secondary, "↩️"));
    let ghost bv_row = row_view(back_row@);
    assert(bv_row =~= seq![back_button(back_id@)]);
    let ghost before_rows = rows@;
    rows.push(back_row);
    assert(rows_view(rows@) =~= rows_view(before_rows).push(bv_row));
    let fields: Vec<(String, String)> = Vec::new();
    let page = Page {
        title: copy_string(title),
        description: text,
        fields,
        footer: None,
        color: EMBED_COLOR,
        rows,
    };
    assert(page@.fields =~= Seq::<(Seq<char>, Seq<char>)>::empty());
    assert(page@.rows =~= target_page_spec(title@, description@, iv, back_id@).rows);
    page
}

fn push_item(items: &mut Vec<(String, String)>, id: String, label: String)
    ensures
        item_views(final(items)@) == item_views(old(items)@).push((id@, label@)),
{
    let ghost before = items@;
    let ghost x = (id@, label@);
    items.push((id, label));
    assert(item_views(items@) =~= item_views(before).push(x));
}

pub open spec fn booru_items(action: Seq<char>, bs: Seq<BooruRow>) -> Seq<(Seq<char>, Seq<char>)> {
    bs.map_values(|b: BooruRow| ("as:boorus:"@ + action + ":"@ + dec_int(b.id as int), b.name@))
}

/// The boorus to choose from for `action`.
pub fn booru_target_items(action: &str, boorus: &Vec<BooruRow>) -> (r: Vec<(String, String)>)
    ensures
        item_views(r@) == booru_items(action@, boorus@),
{
    let mut items: Vec<(String, String)> = Vec::new();
    let mut i: usize = 0;
    while i < boorus.len()
        invariant
            i <= boorus.len(),
            item_views(items@) == booru_items(action@, boorus@.take(i as int)),
        decreases boorus.len() - i,
    {
        let id = cat4("as:boorus:", action, ":", i64_to_string(boorus[i].id).as_str());
        push_item(&mut items, id, copy_string(boorus[i].name.as_str()));
        assert(booru_items(action@, boorus@.take(i + 1)) =~= booru_items(action@, boorus@.take(i as int)).push(
            ("as:boorus:"@ + action@ + ":"@ + dec_int(boorus@[i as int].id as int), boorus@[i as int].name@),
        ));
        i = i + 1;
    }
    assert(boorus@.take(boorus.len() as int) =~= boorus@);
    items
}

/// `unknown` for a booru that is gone.
pub open spec fn name_or_unknown(n: Option<Seq<char>>) -> Seq<char> {
    match n {
        Some(x) => x,
        None => "unknown"@,
    }
}

pub open spec fn pattern_items(category: Seq<char>, ps: Seq<TagPattern>, names: Seq<Option<String>>) -> Seq<
    (Seq<char>, Seq<char>),
> {
    Seq::new(
        ps.len(),
        |i: int|
            (
                "as:patterns:"@ + category + ":"@ + dec_int(ps[i].id as int),
                ps[i].name@ + " / "@ + name_or_unknown(opt_string_view(names[i])),
            ),
    )
}

/// The patterns to choose from (`booru_names[i]`: the booru of `patterns[i]`).
pub fn pattern_target_items(category: &str, patterns: &Vec<TagPattern>, booru_names: &Vec<Option<String>>) -> (r: Vec<
    (String, String),
>)
    requires
        patterns@.len() == booru_names@.len(),
    ensures
        item_views(r@) == pattern_items(category@, patterns@, booru_names@),
{
    let mut items: Vec<(String, String)> = Vec::new();
    let mut i: usize = 0;
    let ghost all = pattern_items(category@, patterns@, booru_names@);
    while i < patterns.len()
        invariant
            i <= patterns.len(),
            patterns@.len() == booru_names@.len(),
            all == pattern_items(category@, patterns@, booru_names@),
            item_views(items@) == all.take(i as int),
        decreases patterns.len() - i,
    {
        let id = cat4("as:patterns:", category, ":", i64_to_string(patterns[i].id).as_str());
        let booru = match &booru_names[i] {
            Some(n) => copy_string(n.as_str()),
            None => String::from_str("unknown"),
        };
        let label = cat3(patterns[i].name.as_str(), " / ", booru.as_str());
        push_item(&mut items, id, label);
        assert(all.take(i + 1) =~= all.take(i as int).push(all[i as int]));
        i = i + 1;
    }
    assert(all.take(patterns.len() as int) =~= all);
    items
}

pub open spec fn channel_items_of(action: Seq<char>, s: Server, cs: Seq<ChannelConfig>) -> Seq<(Seq<char>, Seq<char>)> {
    cs.map_values(
        |c: ChannelConfig|
            (
                "as:channels:"@ + action + ":"@ + dec_int(c.guild_id as int) + ":"@ + dec_int(
                    c.channel_id as int,
                ),
                s.name@ + " / #"@ + dec_int(c.channel_id as int),
            ),
    )
}

pub open spec fn channel_items(action: Seq<char>, ss: Seq<Server>, cs: Seq<Vec<ChannelConfig>>) -> Seq<
    (Seq<char>, Seq<char>),
>
    decreases ss.len(),
{
    if ss.len() == 0 || cs.len() == 0 {
        Seq::empty()
    } else {
        channel_items(action, ss.drop_last(), cs.drop_last()) + channel_items_of(
            action,
            ss.last(),
            cs.last()@,
        )
    }
}

/// The configured channels to choose from (`channels[i]`: those of `servers[i]`).
pub fn channel_target_items(action: &str, servers: &Vec<Server>, channels: &Vec<Vec<ChannelConfig>>) -> (r: Vec<
    (String, String),
>)
    requires
        servers@.len() == channels@.len(),
    ensures
        item_views(r@) == channel_items(action@, servers@, channels@),
{
    let mut items: Vec<(String, String)> = Vec::new();
    let mut i: usize = 0;
    while i < servers.len()
        invariant
            i <= servers.len(),
            servers@.len() == channels@.len(),
            item_views(items@) == channel_items(action@, servers@.take(i as int), channels@.take(i as int)),
        decreases servers.len() - i,
    {
        assert(servers@.take(i + 1).drop_last() =~= servers@.take(i as int));
        assert(channels@.take(i + 1).drop_last() =~= channels@.take(i as int));
        let cs = &channels[i];
        let ghost start = item_views(items@);
        let mut j: usize = 0;
        while j < cs.len()
            invariant
                j <= cs.len(),
                i < servers@.len(),
                servers@.len() == channels@.len(),
                cs == channels@[i as int],
                item_views(items@) == start + channel_items_of(action@, servers@[i as int], cs@.take(j as int)),
            decreases cs.len() - j,
        {
            let c = &cs[j];
            let a = cat4("as:channels:", action, ":", i64_to_string(c.guild_id).as_str());
            let id = cat3(a.as_str(), ":", i64_to_string(c.channel_id).as_str());
            let label = cat3(servers[i].name.as_str(), " / #", i64_to_string(c.channel_id).as_str());
            push_item(&mut items, id, label);
            assert(channel_items_of(action@, servers@[i as int], cs@.take(j + 1)) =~= channel_items_of(
                action@,
                servers@[i as int],
                cs@.take(j as int),
            ).push(channel_items_of(action@, servers@[i as int], cs@.take(j + 1))[j as int]));
            j = j + 1;
        }
        assert(cs@.take(cs.len() as int) =~= cs@);
        i = i + 1;
    }
    assert(servers@.take(servers.len() as int) =~= servers@);
    assert(channels@.take(channels.len() as int) =~= channels@);
    items
}

pub open spec fn keyed_items(prefix: Seq<char>, action: Seq<char>, keys: Seq<String>) -> Seq<
    (Seq<char>, Seq<char>),
> {
    keys.map_values(|k: String| (prefix + action + ":"@ + k@, k@))
}

/// Targets named by text (settings, server tags): `{prefix}{action}:{key}`.
pub fn keyed_target_items(prefix: &str, action: &str, keys: &Vec<String>) -> (r: Vec<(String, String)>)
    ensures
        item_views(r@) == keyed_items(prefix@, action@, keys@),
{
    let mut items: Vec<(String, String)> = Vec::new();
    let mut i: usize = 0;
    while i < keys.len()
        invariant
            i <= keys.len(),
            item_views(items@) == keyed_items(prefix@, action@, keys@.take(i as int)),
        decreases keys.len() - i,
    {
        let id = cat4(prefix, action, ":", keys[i].as_str());
        push_item(&mut items, id, copy_string(keys[i].as_str()));
        assert(keyed_items(prefix@, action@, keys@.take(i + 1)) =~= keyed_items(
            prefix@,
            action@,
            keys@.take(i as int),
        ).push((prefix@ + action@ + ":"@ + keys@[i as int]@, keys@[i as int]@)));
        i = i + 1;
    }
    assert(keys@.take(keys.len() as int) =~= keys@);
    items
}

pub open spec fn target_text(kind: TargetKind<Seq<char>>) -> (Seq<char>, Seq<char>) {
    match kind {
        TargetKind::Boorus => ("Choose one booru before applying the action."@, "ac:boorus"@),
        TargetKind::Patterns(c) => ("Choose one existing pattern before removing it."@, "ac:"@ + c),
        TargetKind::Channels => (
            "Choose one configured channel before applying the action."@,
            "ac:channels"@,
        ),
        TargetKind::Settings => ("Choose one setting before applying the action."@, "ac:settings"@),
        TargetKind::ServerTags => ("Choose one tag enabled on this server."@, "ac:server_tags"@),
    }
}

/// The hint of a target list and the page its Back button returns to.
pub fn target_texts(kind: &TargetKind<String>) -> (r: (String, String))
    ensures
        (r.0@, r.1@) == target_text(kind@),
{
    match kind {
        TargetKind::Boorus => (
            String::from_str("Choose one booru before applying the action."),
            String::from_str("ac:boorus"),
        ),
        TargetKind::Patterns(c) => (
            String::from_str("Choose one existing pattern before removing it."),
            cat2("ac:", c.as_str()),
        ),
        TargetKind::Channels => (
            String::from_str("Choose one configured channel before applying the action."),
            String::from_str("ac:channels"),
        ),
        TargetKind::Settings => (
            String::from_str("Choose one setting before applying the action."),
            String::from_str("ac:settings"),
        ),
        TargetKind::ServerTags => (
            String::from_str("Choose one tag enabled on this server."),
            String::from_str("ac:server_tags"),
        ),
    }
}

// ---------------------------------------------------------------------------
// Target buttons and confirmations
// ---------------------------------------------------------------------------

/// What a chosen target (`as:...`) asks for. Ids are kept as typed, with
/// their parsed value where a lookup needs one.
pub enum TargetRequest<T> {
    BooruEditForm { id: T, booru: Option<i64> },
    BooruDeleteConfirm { id: T, booru: Option<i64> },
    BooruToggleConfirm { id: T, booru: Option<i64> },
    BooruParamForm { id: T, booru: Option<i64> },
    PatternConfirm { category: T, id: T, pattern: Option<i64> },
    ChannelRemoveConfirm { guild: T, channel: T },
    ChannelSetForm { guild: T, channel: T },
    ChannelPatternForm { guild: T, channel: T },
    SettingDeleteConfirm(T),
    SettingEditForm(T),
    ServerTagRemoveConfirm(T),
    MainMenu,
}

impl View for TargetRequest<String> {
    type V = TargetRequest<Seq<char>>;

    open spec fn view(&self) -> TargetRequest<Seq<char>> {
        match self {
            TargetRequest::BooruEditForm { id, booru } => TargetRequest::BooruEditForm { id: id@, booru: *booru },
            TargetRequest::BooruDeleteConfirm { id, booru } => TargetRequest::BooruDeleteConfirm {
                id: id@,
                booru: *booru,
            },
            TargetRequest::BooruToggleConfirm { id, booru } => TargetRequest::BooruToggleConfirm {
                id: id@,
                booru: *booru,
            },
            TargetRequest::BooruParamForm { id, booru } => TargetRequest::BooruParamForm { id: id@, booru: *booru },
            TargetRequest::PatternConfirm { category, id, pattern } => TargetRequest::PatternConfirm {
                category: category@,
                id: id@,
                pattern: *pattern,
            },
            TargetRequest::ChannelRemoveConfirm { guild, channel } => TargetRequest::ChannelRemoveConfirm {
                guild: guild@,
                channel: channel@,
            },
            TargetRequest::ChannelSetForm { guild, channel } => TargetRequest::ChannelSetForm {
                guild: guild@,
                channel: channel@,
            },
            TargetRequest::ChannelPatternForm { guild, channel } => TargetRequest::ChannelPatternForm {
                guild: guild@,
                channel: channel@,
            },
            TargetRequest::SettingDeleteConfirm(k) => TargetRequest::SettingDeleteConfirm(k@),
            TargetRequest::SettingEditForm(k) => TargetRequest::SettingEditForm(k@),
            TargetRequest::ServerTagRemoveConfirm(t) => TargetRequest::ServerTagRemoveConfirm(t@),
            TargetRequest::MainMenu => TargetRequest::MainMenu,
        }
    }
}

/// The `:`-separated parts of a button identifier.
pub open spec fn colon_parts(s: Seq<char>) -> Seq<Seq<char>> {
    split_seq(s, Sep::Char(':'))
}

pub open spec fn target_spec(action_str: Seq<char>) -> TargetRequest<Seq<char>> {
    let p = colon_parts(action_str);
    if p.len() == 3 && p[0] == "boorus"@ && p[1] == "edit"@ {
        TargetRequest::BooruEditForm { id: p[2], booru: parse_i64_spec(p[2]) }
    } else if p.len() == 3 && p[0] == "boorus"@ && p[1] == "delete"@ {
        TargetRequest::BooruDeleteConfirm { id: p[2], booru: parse_i64_spec(p[2]) }
    } else if p.len() == 3 && p[0] == "boorus"@ && p[1] == "toggle"@ {
        TargetRequest::BooruToggleConfirm { id: p[2], booru: parse_i64_spec(p[2]) }
    } else if p.len() == 3 && p[0] == "boorus"@ && p[1] == "param"@ {
        TargetRequest::BooruParamForm { id: p[2], booru: parse_i64_spec(p[2]) }
    } else if p.len() == 3 && p[0] == "patterns"@ {
        TargetRequest::PatternConfirm { category: p[1], id: p[2], pattern: parse_i64_spec(p[2]) }
    } else if p.len() == 4 && p[0] == "channels"@ && p[1] == "remove"@ {
        TargetRequest::ChannelRemoveConfirm { guild: p[2], channel: p[3] }
    } else if p.len() == 4 && p[0] == "channels"@ && p[1] == "set"@ {
        TargetRequest::ChannelSetForm { guild: p[2], channel: p[3] }
    } else if p.len() == 4 && p[0] == "channels"@ && p[1] == "pattern"@ {
        TargetRequest::ChannelPatternForm { guild: p[2], channel: p[3] }
    } else if p.len() == 3 && p[0] == "settings"@ && p[1] == "delete"@ {
        TargetRequest::SettingDeleteConfirm(p[2])
    } else if p.len() == 3 && p[0] == "settings"@ && p[1] == "edit"@ {
        TargetRequest::SettingEditForm(p[2])
    } else if p.len() == 3 && p[0] == "server_tags"@ && p[1] == "remove"@ {
        TargetRequest::ServerTagRemoveConfirm(p[2])
    } else {
        TargetRequest::MainMenu
    }
}

fn piece(parts: &Vec<Vec<char>>, i: usize) -> (r: String)
    requires
        i < parts@.len(),
    ensures
        r@ == parts@[i as int]@,
{
    string_of(&parts[i])
}

fn piece_is(parts: &Vec<Vec<char>>, i: usize, word: &str) -> (r: bool)
    requires
        i < parts@.len(),
    ensures
        r == (parts@[i as int]@ == word@),
{
    let w = chars_of(word);
    crate::text::eq_chars(&parts[i], &w)
}

/// Parses a chosen target `as:{action_str}`.
pub fn target_request(action_str: &str) -> (r: TargetRequest<String>)
    ensures
        r@ == target_spec(action_str@),
{
    let v = chars_of(action_str);
    let p = split_vec(&v, Sep::Char(':'));
    let ghost ps = views(p@);
    assert(ps == colon_parts(action_str@));
    let n = p.len();
    if n == 3 && piece_is(&p, 0, "boorus") && piece_is(&p, 1, "edit") {
        let id = piece(&p, 2);
        let booru = parse_i64(id.as_str());
        TargetRequest::BooruEditForm { id, booru }
    } else if n == 3 && piece_is(&p, 0, "boorus") && piece_is(&p, 1, "delete") {
        let id = piece(&p, 2);
        let booru = parse_i64(id.as_str());
        TargetRequest::BooruDeleteConfirm { id, booru }
    } else if n == 3 && piece_is(&p, 0, "boorus") && piece_is(&p, 1, "toggle") {
        let id = piece(&p, 2);
        let booru = parse_i64(id.as_str());
        TargetRequest::BooruToggleConfirm { id, booru }
    } else if n == 3 && piece_is(&p, 0, "boorus") && piece_is(&p, 1, "param") {
        let id = piece(&p, 2);
        let booru = parse_i64(id.as_str());
        TargetRequest::BooruParamForm { id, booru }
    } else if n == 3 && piece_is(&p, 0, "patterns") {
        let id = piece(&p, 2);
        let pattern = parse_i64(id.as_str());
        TargetRequest::PatternConfirm { category: piece(&p, 1), id, pattern }
    } else if n == 4 && piece_is(&p, 0, "channels") && piece_is(&p, 1, "remove") {
        TargetRequest::ChannelRemoveConfirm { guild: piece(&p, 2), channel: piece(&p, 3) }
    } else if n == 4 && piece_is(&p, 0, "channels") && piece_is(&p, 1, "set") {
        TargetRequest::ChannelSetForm { guild: piece(&p, 2), channel: piece(&p, 3) }
    } else if n == 4 && piece_is(&p, 0, "channels") && piece_is(&p, 1, "pattern") {
        TargetRequest::ChannelPatternForm { guild: piece(&p, 2), channel: piece(&p, 3) }
    } else if n == 3 && piece_is(&p, 0, "settings") && piece_is(&p, 1, "delete") {
        TargetRequest::SettingDeleteConfirm(piece(&p, 2))
    } else if n == 3 && piece_is(&p, 0, "settings") && piece_is(&p, 1, "edit") {
        TargetRequest::SettingEditForm(piece(&p, 2))
    } else if n == 3 && piece_is(&p, 0, "server_tags") && piece_is(&p, 1, "remove") {
        TargetRequest::ServerTagRemoveConfirm(piece(&p, 2))
    } else {
        TargetRequest::MainMenu
    }
}

/// A confirmation page: the question, then `Yes, proceed` (sending
/// `ay:{action}`) and `Cancel` (back to the main menu).
pub open spec fn confirmation_spec(message: Seq<char>, action: Seq<char>) -> PageView {
    PageView {
        title: "⚠️ Confirmation Required"@,
        description: message,
        fields: Seq::empty(),
        footer: None,
        color: WARNING_COLOR,
        rows: seq![
            seq![
                bv("ay:"@ + action, "Yes, proceed"@, ButtonStyle::Danger, None),
                bv("an"@, "Cancel"@, ButtonStyle::Secondary, None),
            ],
        ],
    }
}

pub fn confirmation(message: &str, action: &str) -> (r: Page)
    ensures
        r@ == confirmation_spec(message@, action@),
{
    let mut row: Vec<Button> = Vec::new();
    row.push(crate::panel::plain_button(cat2("ay:", action).as_str(), "Yes, proceed", ButtonStyle::Danger));
    row.push(crate::panel::plain_button("an", "Cancel", ButtonStyle::Secondary));
    let ghost rv = row_view(row@);
    assert(rv =~= confirmation_spec(message@, action@).rows[0]);
    let mut rows: Vec<Vec<Button>> = Vec::new();
    rows.push(row);
    assert(rows_view(rows@) =~= seq![rv]);
    let fields: Vec<(String, String)> = Vec::new();
    let page = Page {
        title: String::from_str("⚠️ Confirmation Required"),
        description: copy_string(message),
        fields,
        footer: None,
        color: WARNING_COLOR,
        rows,
    };
    assert(page@.fields =~= Seq::<(Seq<char>, Seq<char>)>::empty());
    assert(page@.rows =~= confirmation_spec(message@, action@).rows);
    page
}

/// The confirmation a chosen target asks for; `name` is the looked-up name
/// (the booru's, or the pattern's `name / booru` label) where one is needed.
pub open spec fn confirm_spec(req: TargetRequest<Seq<char>>, name: Seq<char>) -> Option<PageView> {
    match req {
        TargetRequest::BooruDeleteConfirm { id, .. } => Some(
            confirmation_spec(
                "Delete booru `"@ + name + "`? This also removes its patterns."@,
                "booru:delete:"@ + id,
            ),
        ),
        TargetRequest::BooruToggleConfirm { id, .. } => Some(
            confirmation_spec("Toggle booru `"@ + name + "` enabled status?"@, "booru:toggle:"@ + id),
        ),
        TargetRequest::PatternConfirm { category, id, .. } => Some(
            confirmation_spec("Remove `"@ + name + "`?"@, "pattern:delete:"@ + category + ":"@ + id),
        ),
        TargetRequest::ChannelRemoveConfirm { guild, channel } => Some(
            confirmation_spec(
                "Remove channel <#"@ + channel + "> from server `"@ + guild + "`?"@,
                "channel:remove:"@ + guild + ":"@ + channel,
            ),
        ),
        TargetRequest::SettingDeleteConfirm(key) => Some(
            confirmation_spec("Delete setting `"@ + key + "`?"@, "settings:delete:"@ + key),
        ),
        TargetRequest::ServerTagRemoveConfirm(tag) => Some(
            confirmation_spec(
                "Remove tag `"@ + tag + "` from this server?"@,
                "server_tag:remove:"@ + tag,
            ),
        ),
        _ => None,
    }
}

pub fn confirm_page(req: &TargetRequest<String>, name: &str) -> (r: Option<Page>)
    ensures
        match r {
            Some(p) => confirm_spec(req@, name@) == Some(p@),
            None => confirm_spec(req@, name@) is None,
        },
{
    match req {
        TargetRequest::BooruDeleteConfirm { id, .. } => Some(
            confirmation(
                cat3("Delete booru `", name, "`? This also removes its patterns.").as_str(),
                cat2("booru:delete:", id.as_str()).as_str(),
            ),
        ),
        TargetRequest::BooruToggleConfirm { id, .. } => Some(
            confirmation(
                cat3("Toggle booru `", name, "` enabled status?").as_str(),
                cat2("booru:toggle:", id.as_str()).as_str(),
            ),
        ),
        TargetRequest::PatternConfirm { category, id, .. } => Some(
            confirmation(
                cat3("Remove `", name, "`?").as_str(),
                cat4("pattern:delete:", category.as_str(), ":", id.as_str()).as_str(),
            ),
        ),
        TargetRequest::ChannelRemoveConfirm { guild, channel } => Some(
            confirmation(
                cat5("Remove channel <#", channel.as_str(), "> from server `", guild.as_str(), "`?").as_str(),
                cat4("channel:remove:", guild.as_str(), ":", channel.as_str()).as_str(),
            ),
        ),
        TargetRequest::SettingDeleteConfirm(key) => Some(
            confirmation(
                cat3("Delete setting `", key.as_str(), "`?").as_str(),
                cat2("settings:delete:", key.as_str()).as_str(),
            ),
        ),
        TargetRequest::ServerTagRemoveConfirm(tag) => Some(
            confirmation(
                cat3("Remove tag `", tag.as_str(), "` from this server?").as_str(),
                cat2("server_tag:remove:", tag.as_str()).as_str(),
            ),
        ),
        _ => None,
    }
}

/// The form a chosen target opens; `name` is the booru's name where the
/// form is about a booru.
pub open spec fn form_spec(req: TargetRequest<Seq<char>>, name: Seq<char>, setting_value: Seq<char>) -> Option<ModalView> {
    match req {
        TargetRequest::BooruEditForm { id, .. } => Some(
            ModalView {
                custom_id: "am:boorus:edit:"@ + id,
                title: "Edit "@ + name,
                inputs: seq![
                    iv(false, "Field Name"@, "field_name"@, true, Some("description, page_size, count_url, enabled, ..."@)),
                    iv(true, "Value"@, "field_value"@, true, Some("Use null for optional fields."@)),
                ],
            },
        ),
        TargetRequest::BooruParamForm { id, .. } => Some(
            ModalView {
                custom_id: "am:boorus:param:"@ + id,
                title: "Parameters for "@ + name,
                inputs: seq![
                    iv(false, "Action"@, "param_action"@, true, Some("set, delete, or list"@)),
                    iv(false, "Key"@, "param_key"@, false, None),
                    iv(false, "Value"@, "param_value"@, false, None),
                ],
            },
        ),
        TargetRequest::ChannelSetForm { guild, channel } => Some(
            ModalView {
                custom_id: "am:channels:set:"@ + guild + ":"@ + channel,
                title: "Set Channel Config"@,
                inputs: seq![
                    iv(false, "Language"@, "language"@, false, Some("Leave empty for default"@)),
                    iv(false, "Banned Tags"@, "banned_tags"@, false, Some("comma,separated,tags"@)),
                ],
            },
        ),
        TargetRequest::ChannelPatternForm { guild, channel } => Some(
            ModalView {
                custom_id: "am:channels:pattern:"@ + guild + ":"@ + channel,
                title: "Channel Patterns"@,
                inputs: seq![
                    iv(false, "Action"@, "pattern_action"@, true, Some("add, remove, or list"@)),
                    iv(false, "Pattern Name"@, "pattern_name"@, false, None),
                ],
            },
        ),
        TargetRequest::SettingEditForm(key) => Some(
            setting_modal_spec("am:settings:set"@, "Edit "@ + key, key, setting_value),
        ),
        _ => None,
    }
}

pub fn form_for(req: &TargetRequest<String>, name: &str, setting_value: &str) -> (r: Option<Modal>)
    ensures
        match r {
            Some(m) => form_spec(req@, name@, setting_value@) == Some(m@),
            None => form_spec(req@, name@, setting_value@) is None,
        },
{
    match req {
        TargetRequest::BooruEditForm { id, .. } => {
            let mut v: Vec<InputField> = Vec::new();
            v.push(crate::panel::input(false, "Field Name", "field_name", true, Some("description, page_size, count_url, enabled, ...")));
            v.push(crate::panel::input(true, "Value", "field_value", true, Some("Use null for optional fields.")));
            let m = Modal {
                custom_id: cat2("am:boorus:edit:", id.as_str()),
                title: cat2("Edit ", name),
                inputs: v,
            };
            assert(m@.inputs =~= form_spec(req@, name@, setting_value@).unwrap().inputs);
            Some(m)
        },
        TargetRequest::BooruParamForm { id, .. } => {
            let mut v: Vec<InputField> = Vec::new();
            v.push(crate::panel::input(false, "Action", "param_action", true, Some("set, delete, or list")));
            v.push(crate::panel::input(false, "Key", "param_key", false, None));
            v.push(crate::panel::input(false, "Value", "param_value", false, None));
            let m = Modal {
                custom_id: cat2("am:boorus:param:", id.as_str()),
                title: cat2("Parameters for ", name),
                inputs: v,
            };
            assert(m@.inputs =~= form_spec(req@, name@, setting_value@).unwrap().inputs);
            Some(m)
        },
        TargetRequest::ChannelSetForm { guild, channel } => {
            let mut v: Vec<InputField> = Vec::new();
            v.push(crate::panel::input(false, "Language", "language", false, Some("Leave empty for default")));
            v.push(crate::panel::input(false, "Banned Tags", "banned_tags", false, Some("comma,separated,tags")));
            let m = Modal {
                custom_id: cat4("am:channels:set:", guild.as_str(), ":", channel.as_str()),
                title: String::from_str("Set Channel Config"),
                inputs: v,
            };
            assert(m@.inputs =~= form_spec(req@, name@, setting_value@).unwrap().inputs);
            Some(m)
        },
        TargetRequest::ChannelPatternForm { guild, channel } => {
            let mut v: Vec<InputField> = Vec::new();
            v.push(crate::panel::input(false, "Action", "pattern_action", true, Some("add, remove, or list")));
            v.push(crate::panel::input(false, "Pattern Name", "pattern_name", false, None));
            let m = Modal {
                custom_id: cat4("am:channels:pattern:", guild.as_str(), ":", channel.as_str()),
                title: String::from_str("Channel Patterns"),
                inputs: v,
            };
            assert(m@.inputs =~= form_spec(req@, name@, setting_value@).unwrap().inputs);
            Some(m)
        },
        TargetRequest::SettingEditForm(key) => Some(
            setting_modal("am:settings:set", cat2("Edit ", key.as_str()).as_str(), key.as_str(), setting_value),
        ),
        _ => None,
    }
}

// ---------------------------------------------------------------------------
// Confirmed actions
// ---------------------------------------------------------------------------

/// The forms a confirmed action without a target opens.
#[derive(Clone, Copy, Debug, PartialEq, Eq, Structural)]
pub enum ConfirmedForm {
    DeleteBooru,
    RemovePattern,
    RemoveChannel,
}

/// What a confirmed action (`ay:...`) does. Ids that do not parse carry
/// the error to show.
pub enum ConfirmedRequest<T> {
    BooruDelete(Result<i64, T>),
    BooruToggle(Result<i64, T>),
    PatternDelete { category: T, id: Result<i64, T> },
    ChannelRemove(Result<(i64, i64), T>),
    SettingDelete(T),
    ServerTagRemove(T),
    Form(ConfirmedForm),
    MainMenu,
}

pub open spec fn res_view<A>(r: Result<A, String>) -> Result<A, Seq<char>> {
    match r {
        Ok(a) => Ok(a),
        Err(e) => Err(e@),
    }
}

impl View for ConfirmedRequest<String> {
    type V = ConfirmedRequest<Seq<char>>;

    open spec fn view(&self) -> ConfirmedRequest<Seq<char>> {
        match self {
            ConfirmedRequest::BooruDelete(r) => ConfirmedRequest::BooruDelete(res_view(*r)),
            ConfirmedRequest::BooruToggle(r) => ConfirmedRequest::BooruToggle(res_view(*r)),
            ConfirmedRequest::PatternDelete { category, id } => ConfirmedRequest::PatternDelete {
                category: category@,
                id: res_view(*id),
            },
            ConfirmedRequest::ChannelRemove(r) => ConfirmedRequest::ChannelRemove(res_view(*r)),
            ConfirmedRequest::SettingDelete(k) => ConfirmedRequest::SettingDelete(k@),
            ConfirmedRequest::ServerTagRemove(t) => ConfirmedRequest::ServerTagRemove(t@),
            ConfirmedRequest::Form(f) => ConfirmedRequest::Form(*f),
            ConfirmedRequest::MainMenu => ConfirmedRequest::MainMenu,
        }
    }
}

/// A parsed id, or the given error.
pub open spec fn id_or(text: Seq<char>, err: Seq<char>) -> Result<i64, Seq<char>> {
    match parse_i64_spec(text) {
        Some(n) => Ok(n),
        None => Err(err),
    }
}

/// Both ids of a channel, or which one does not parse.
pub open spec fn parse_ids_spec(guild: Seq<char>, channel: Seq<char>) -> Result<(i64, i64), Seq<char>> {
    match parse_i64_spec(guild) {
        None => Err("Invalid guild ID"@),
        Some(g) => match parse_i64_spec(channel) {
            None => Err("Invalid channel ID"@),
            Some(c) => Ok((g, c)),
        },
    }
}

pub fn parse_ids(guild: &str, channel: &str) -> (r: Result<(i64, i64), String>)
    ensures
        res_view(r) == parse_ids_spec(guild@, channel@),
{
    let g = match parse_i64(guild) {
        Some(g) => g,
        None => return Err(String::from_str("Invalid guild ID")),
    };
    match parse_i64(channel) {
        Some(c) => Ok((g, c)),
        None => Err(String::from_str("Invalid channel ID")),
    }
}

fn id_or_err(text: &str, err: &str) -> (r: Result<i64, String>)
    ensures
        res_view(r) == id_or(text@, err@),
{
    match parse_i64(text) {
        Some(n) => Ok(n),
        None => Err(String::from_str(err)),
    }
}

pub open spec fn confirmed_spec(action_str: Seq<char>) -> ConfirmedRequest<Seq<char>> {
    let p = colon_parts(action_str);
    if p.len() == 3 && p[0] == "booru"@ && p[1] == "delete"@ {
        ConfirmedRequest::BooruDelete(id_or(p[2], "Invalid booru id"@))
    } else if p.len() == 3 && p[0] == "booru"@ && p[1] == "toggle"@ {
        ConfirmedRequest::BooruToggle(id_or(p[2], "Invalid booru id"@))
    } else if p.len() == 4 && p[0] == "pattern"@ && p[1] == "delete"@ {
        ConfirmedRequest::PatternDelete { category: p[2], id: id_or(p[3], "Invalid pattern id"@) }
    } else if p.len() == 4 && p[0] == "channel"@ && p[1] == "remove"@ {
        ConfirmedRequest::ChannelRemove(parse_ids_spec(p[2], p[3]))
    } else if p.len() == 3 && p[0] == "settings"@ && p[1] == "delete"@ {
        ConfirmedRequest::SettingDelete(p[2])
    } else if p.len() == 3 && p[0] == "server_tag"@ && p[1] == "remove"@ {
        ConfirmedRequest::ServerTagRemove(p[2])
    } else if action_str == "booru:delete"@ {
        ConfirmedRequest::Form(ConfirmedForm::DeleteBooru)
    } else if action_str == "tag:remove"@ {
        ConfirmedRequest::Form(ConfirmedForm::RemovePattern)
    } else if action_str == "ch:remove"@ {
        ConfirmedRequest::Form(ConfirmedForm::RemoveChannel)
    } else {
        ConfirmedRequest::MainMenu
    }
}

/// Parses a confirmed action `ay:{action_str}`.
pub fn confirmed_request(action_str: &str) -> (r: ConfirmedRequest<String>)
    ensures
        r@ == confirmed_spec(action_str@),
{
    let v = chars_of(action_str);
    let p = split_vec(&v, Sep::Char(':'));
    let n = p.len();
    if n == 3 && piece_is(&p, 0, "booru") && piece_is(&p, 1, "delete") {
        ConfirmedRequest::BooruDelete(id_or_err(piece(&p, 2).as_str(), "Invalid booru id"))
    } else if n == 3 && piece_is(&p, 0, "booru") && piece_is(&p, 1, "toggle") {
        ConfirmedRequest::BooruToggle(id_or_err(piece(&p, 2).as_str(), "Invalid booru id"))
    } else if n == 4 && piece_is(&p, 0, "pattern") && piece_is(&p, 1, "delete") {
        ConfirmedRequest::PatternDelete {
            category: piece(&p, 2),
            id: id_or_err(piece(&p, 3).as_str(), "Invalid pattern id"),
        }
    } else if n == 4 && piece_is(&p, 0, "channel") && piece_is(&p, 1, "remove") {
        ConfirmedRequest::ChannelRemove(parse_ids(piece(&p, 2).as_str(), piece(&p, 3).as_str()))
    } else if n == 3 && piece_is(&p, 0, "settings") && piece_is(&p, 1, "delete") {
        ConfirmedRequest::SettingDelete(piece(&p, 2))
    } else if n == 3 && piece_is(&p, 0, "server_tag") && piece_is(&p, 1, "remove") {
        ConfirmedRequest::ServerTagRemove(piece(&p, 2))
    } else if str_eq(action_str, "booru:delete") {
        ConfirmedRequest::Form(ConfirmedForm::DeleteBooru)
    } else if str_eq(action_str, "tag:remove") {
        ConfirmedRequest::Form(ConfirmedForm::RemovePattern)
    } else if str_eq(action_str, "ch:remove") {
        ConfirmedRequest::Form(ConfirmedForm::RemoveChannel)
    } else {
        ConfirmedRequest::MainMenu
    }
}

pub open spec fn confirmed_form_spec(f: ConfirmedForm) -> ModalView {
    match f {
        ConfirmedForm::DeleteBooru => ModalView {
            custom_id: "am:boorus:delete"@,
            title: "Delete Booru"@,
            inputs: seq![iv(false, "Booru Name"@, "booru_name"@, true, None)],
        },
        ConfirmedForm::RemovePattern => ModalView {
            custom_id: "am:tags:remove"@,
            title: "Remove Tag Pattern"@,
            inputs: seq![
                iv(false, "Pattern Name"@, "pattern_name"@, true, None),
                iv(false, "Booru Name (leave empty for all)"@, "booru_name"@, false, None),
            ],
        },
        ConfirmedForm::RemoveChannel => ModalView {
            custom_id: "am:channels:remove"@,
            title: "Remove Channel"@,
            inputs: channel_id_inputs(),
        },
    }
}

pub fn confirmed_form(f: ConfirmedForm) -> (r: Modal)
    ensures
        r@ == confirmed_form_spec(f),
{
    match f {
        ConfirmedForm::DeleteBooru => {
            let mut v: Vec<InputField> = Vec::new();
            v.push(crate::panel::input(false, "Booru Name", "booru_name", true, None));
            let m = Modal {
                custom_id: String::from_str("am:boorus:delete"),
                title: String::from_str("Delete Booru"),
                inputs: v,
            };
            assert(m@.inputs =~= confirmed_form_spec(f).inputs);
            m
        },
        ConfirmedForm::RemovePattern => {
            let mut v: Vec<InputField> = Vec::new();
            v.push(crate::panel::input(false, "Pattern Name", "pattern_name", true, None));
            v.push(crate::panel::input(false, "Booru Name (leave empty for all)", "booru_name", false, None));
            let m = Modal {
                custom_id: String::from_str("am:tags:remove"),
                title: String::from_str("Remove Tag Pattern"),
                inputs: v,
            };
            assert(m@.inputs =~= confirmed_form_spec(f).inputs);
            m
        },
        ConfirmedForm::RemoveChannel => Modal {
            custom_id: String::from_str("am:channels:remove"),
            title: String::from_str("Remove Channel"),
            inputs: channel_inputs(),
        },
    }
}

/// The category page shown after a confirmed action.
pub open spec fn confirmed_category(req: ConfirmedRequest<Seq<char>>) -> Seq<char> {
    match req {
        ConfirmedRequest::BooruDelete(_) => "boorus"@,
        ConfirmedRequest::BooruToggle(_) => "boorus"@,
        ConfirmedRequest::PatternDelete { category, .. } => category,
        ConfirmedRequest::ChannelRemove(_) => "channels"@,
        ConfirmedRequest::SettingDelete(_) => "settings"@,
        ConfirmedRequest::ServerTagRemove(_) => "server_tags"@,
        _ => "main"@,
    }
}

pub fn confirmed_page_category(req: &ConfirmedRequest<String>) -> (r: String)
    ensures
        r@ == confirmed_category(req@),
{
    match req {
        ConfirmedRequest::BooruDelete(_) => String::from_str("boorus"),
        ConfirmedRequest::BooruToggle(_) => String::from_str("boorus"),
        ConfirmedRequest::PatternDelete { category, .. } => copy_string(category.as_str()),
        ConfirmedRequest::ChannelRemove(_) => String::from_str("channels"),
        ConfirmedRequest::SettingDelete(_) => String::from_str("settings"),
        ConfirmedRequest::ServerTagRemove(_) => String::from_str("server_tags"),
        _ => String::from_str("main"),
    }
}

/// The message shown above a page after an action: the success text, or
/// `Error: {err}`.
pub open spec fn outcome_spec(r: Result<Seq<char>, Seq<char>>) -> Seq<char> {
    match r {
        Ok(m) => m,
        Err(e) => "Error: "@ + e,
    }
}

pub fn outcome_text(r: &Result<String, String>) -> (t: String)
    ensures
        t@ == outcome_spec(crate::admin::text_view(*r)),
{
    match r {
        Ok(m) => copy_string(m.as_str()),
        Err(e) => cat2("Error: ", e.as_str()),
    }
}

/// `Booru `{name}` deleted. Reload to update commands.`
pub fn booru_deleted_notice(name: &str) -> (r: String)
    ensures
        r@ == "Booru `"@ + name@ + "` deleted. Reload to update commands."@,
{
    cat3("Booru `", name, "` deleted. Reload to update commands.")
}

/// `Booru `{name}` enabled.` or `disabled.`, with the reload notice.
pub fn booru_toggled_notice(name: &str, enabled: bool) -> (r: String)
    ensures
        r@ == "Booru `"@ + name@ + "` "@ + crate::admin_reply::enabled_word(enabled)
            + ". Reload to update commands."@,
{
    let w = if enabled {
        String::from_str("enabled")
    } else {
        String::from_str("disabled")
    };
    cat5("Booru `", name, "` ", w.as_str(), ". Reload to update commands.")
}

/// `Pattern `{pattern}` removed from `{booru}`. Reload to update commands.`
pub fn pattern_removed_notice(pattern: &str, booru: &str) -> (r: String)
    ensures
        r@ == "Pattern `"@ + pattern@ + "` removed from `"@ + booru@ + "`. Reload to update commands."@,
{
    cat5("Pattern `", pattern, "` removed from `", booru, "`. Reload to update commands.")
}

/// `Channel `{channel}` removed from server `{guild}`.`
pub fn channel_removed_notice(guild: i64, channel: i64) -> (r: String)
    ensures
        r@ == "Channel `"@ + dec_int(channel as int) + "` removed from server `"@ + dec_int(guild as int)
            + "`."@,
{
    cat5(
        "Channel `",
        i64_to_string(channel).as_str(),
        "` removed from server `",
        i64_to_string(guild).as_str(),
        "`.",
    )
}

/// `Setting `{key}` deleted.`
pub fn setting_deleted_notice(key: &str) -> (r: String)
    ensures
        r@ == "Setting `"@ + key@ + "` deleted."@,
{
    cat3("Setting `", key, "` deleted.")
}

/// `Server tag `{tag}` removed. Reload to update commands.`
pub fn server_tag_removed_notice(tag: &str) -> (r: String)
    ensures
        r@ == "Server tag `"@ + tag@ + "` removed. Reload to update commands."@,
{
    cat3("Server tag `", tag, "` removed. Reload to update commands.")
}

} // verus!
