//! Localized messages. Each language holds one text per message key; some
//! texts carry `{name}` placeholders that the accessors fill.
use vstd::prelude::*;
use crate::num::{dec, usize_to_string};
use crate::text::{chars_of, lower_seq, lower_vec, replace_seq, replace_str, str_eq, string_of, trim_seq, trim_vec};

verus! {

/// The languages that have message texts.
#[derive(Clone, Copy, PartialEq, Eq, Structural)]
pub enum Language {
    En,
    Fr,
}

/// The message keys.
#[derive(Clone, Copy, PartialEq, Eq, Structural)]
pub enum Msg {
    AdminOnly,
    AdministrateActionDescription,
    AdministrateCommandDescription,
    AdministrateHelp,
    ArtHistoryAttachmentFilename,
    ArtHistoryCommandDescription,
    ArtHistoryError,
    ArtHistoryNoLinks,
    ArtHistoryOptionDescription,
    ArtHistoryShowingAll,
    ArtHistoryShowingCount,
    ChannelNotAllowed,
    ChannelPatternsEmpty,
    ChannelTagBlocked,
    CommandNotRegistered,
    CouldNotFindImage,
    CustomCommandDescription,
    CustomCommandNoTags,
    CustomTagOptionDescription,
    PatternCommandDescription,
    ReloadTomlAlreadyInProgress,
    ReloadTomlCommandDescription,
    ReloadTomlFinished,
    ReloadTomlInProgress,
    ReloadTomlWaiting,
    RequiredTagOptionDescription,
    ServerNotValidated,
    TagNotRegistered,
}

/// The English texts.
pub open spec fn en_spec(key: Msg) -> Seq<char> {
    match key {
        Msg::AdminOnly => "Only the bot administrator and moderators can use this command."@,
        Msg::AdministrateActionDescription => "Administration action to run"@,
        Msg::AdministrateCommandDescription => "Open the administration panel"@,
        Msg::AdministrateHelp => "Administration commands: booru, tags, moderator, server, setting, channel, patterns, help."@,
        Msg::ArtHistoryAttachmentFilename => "art-history.txt"@,
        Msg::ArtHistoryCommandDescription => "Show the most recent source links posted in this channel"@,
        Msg::ArtHistoryError => "Could not read the art history: {error}"@,
        Msg::ArtHistoryNoLinks => "No source links have been posted in this channel yet."@,
        Msg::ArtHistoryOptionDescription => "How many previous arts to show"@,
        Msg::ArtHistoryShowingAll => "Only {shown} of the {requested} requested links exist; showing all of them."@,
        Msg::ArtHistoryShowingCount => "Showing the last {shown} links."@,
        Msg::ChannelNotAllowed => "Commands are not enabled in this channel."@,
        Msg::ChannelPatternsEmpty => "No tags are blocked in this channel."@,
        Msg::ChannelTagBlocked => "The tag `{tag}` is blocked in this channel."@,
        Msg::CommandNotRegistered => "This command is not registered."@,
        Msg::CouldNotFindImage => "Could not find an image: {error}"@,
        Msg::CustomCommandDescription => "Search {booru} with your own tags"@,
        Msg::CustomCommandNoTags => "Give at least one tag."@,
        Msg::CustomTagOptionDescription => "An additional tag"@,
        Msg::PatternCommandDescription => "Post a random {pattern} image"@,
        Msg::ReloadTomlAlreadyInProgress => "A reload is already in progress."@,
        Msg::ReloadTomlCommandDescription => "Reload the bot configuration"@,
        Msg::ReloadTomlFinished => "Reload finished."@,
        Msg::ReloadTomlInProgress => "The bot is reloading; try again in a moment."@,
        Msg::ReloadTomlWaiting => "Waiting for running commands to finish before reloading..."@,
        Msg::RequiredTagOptionDescription => "A tag to search for"@,
        Msg::ServerNotValidated => "This server has not been validated yet."@,
        Msg::TagNotRegistered => "The tag `{pattern}` is not enabled on this server."@,
    }
}

fn en_text(key: Msg) -> (r: &'static str)
    ensures
        r@ == en_spec(key),
{
    match key {
        Msg::AdminOnly => "Only the bot administrator and moderators can use this command.",
        Msg::AdministrateActionDescription => "Administration action to run",
        Msg::AdministrateCommandDescription => "Open the administration panel",
        Msg::AdministrateHelp => "Administration commands: booru, tags, moderator, server, setting, channel, patterns, help.",
        Msg::ArtHistoryAttachmentFilename => "art-history.txt",
        Msg::ArtHistoryCommandDescription => "Show the most recent source links posted in this channel",
        Msg::ArtHistoryError => "Could not read the art history: {error}",
        Msg::ArtHistoryNoLinks => "No source links have been posted in this channel yet.",
        Msg::ArtHistoryOptionDescription => "How many previous arts to show",
        Msg::ArtHistoryShowingAll => "Only {shown} of the {requested} requested links exist; showing all of them.",
        Msg::ArtHistoryShowingCount => "Showing the last {shown} links.",
        Msg::ChannelNotAllowed => "Commands are not enabled in this channel.",
        Msg::ChannelPatternsEmpty => "No tags are blocked in this channel.",
        Msg::ChannelTagBlocked => "The tag `{tag}` is blocked in this channel.",
        Msg::CommandNotRegistered => "This command is not registered.",
        Msg::CouldNotFindImage => "Could not find an image: {error}",
        Msg::CustomCommandDescription => "Search {booru} with your own tags",
        Msg::CustomCommandNoTags => "Give at least one tag.",
        Msg::CustomTagOptionDescription => "An additional tag",
        Msg::PatternCommandDescription => "Post a random {pattern} image",
        Msg::ReloadTomlAlreadyInProgress => "A reload is already in progress.",
        Msg::ReloadTomlCommandDescription => "Reload the bot configuration",
        Msg::ReloadTomlFinished => "Reload finished.",
        Msg::ReloadTomlInProgress => "The bot is reloading; try again in a moment.",
        Msg::ReloadTomlWaiting => "Waiting for running commands to finish before reloading...",
        Msg::RequiredTagOptionDescription => "A tag to search for",
        Msg::ServerNotValidated => "This server has not been validated yet.",
        Msg::TagNotRegistered => "The tag `{pattern}` is not enabled on this server.",
    }
}

/// The French texts.
pub open spec fn fr_spec(key: Msg) -> Seq<char> {
    match key {
        Msg::AdminOnly => "Seuls l'administrateur du bot et les modérateurs peuvent utiliser cette commande."@,
        Msg::AdministrateActionDescription => "Action d'administration à exécuter"@,
        Msg::AdministrateCommandDescription => "Ouvrir le panneau d'administration"@,
        Msg::AdministrateHelp => "Commandes d'administration : booru, tags, moderator, server, setting, channel, patterns, help."@,
        Msg::ArtHistoryAttachmentFilename => "historique-art.txt"@,
        Msg::ArtHistoryCommandDescription => "Afficher les derniers liens sources publiés dans ce salon"@,
        Msg::ArtHistoryError => "Impossible de lire l'historique : {error}"@,
        Msg::ArtHistoryNoLinks => "Aucun lien source n'a encore été publié dans ce salon."@,
        Msg::ArtHistoryOptionDescription => "Nombre d'images précédentes à afficher"@,
        Msg::ArtHistoryShowingAll => "Seuls {shown} des {requested} liens demandés existent ; ils sont tous affichés."@,
        Msg::ArtHistoryShowingCount => "Affichage des {shown} derniers liens."@,
        Msg::ChannelNotAllowed => "Les commandes ne sont pas activées dans ce salon."@,
        Msg::ChannelPatternsEmpty => "Aucun tag n'est bloqué dans ce salon."@,
        Msg::ChannelTagBlocked => "Le tag `{tag}` est bloqué dans ce salon."@,
        Msg::CommandNotRegistered => "Cette commande n'est pas enregistrée."@,
        Msg::CouldNotFindImage => "Impossible de trouver une image : {error}"@,
        Msg::CustomCommandDescription => "Chercher sur {booru} avec vos propres tags"@,
        Msg::CustomCommandNoTags => "Donnez au moins un tag."@,
        Msg::CustomTagOptionDescription => "Un tag supplémentaire"@,
        Msg::PatternCommandDescription => "Publier une image {pattern} au hasard"@,
        Msg::ReloadTomlAlreadyInProgress => "Un rechargement est déjà en cours."@,
        Msg::ReloadTomlCommandDescription => "Recharger la configuration du bot"@,
        Msg::ReloadTomlFinished => "Rechargement terminé."@,
        Msg::ReloadTomlInProgress => "Le bot se recharge ; réessayez dans un instant."@,
        Msg::ReloadTomlWaiting => "Attente de la fin des commandes en cours avant le rechargement..."@,
        Msg::RequiredTagOptionDescription => "Un tag à rechercher"@,
        Msg::ServerNotValidated => "Ce serveur n'a pas encore été validé."@,
        Msg::TagNotRegistered => "Le tag `{pattern}` n'est pas activé sur ce serveur."@,
    }
}

fn fr_text(key: Msg) -> (r: &'static str)
    ensures
        r@ == fr_spec(key),
{
    match key {
        Msg::AdminOnly => "Seuls l'administrateur du bot et les modérateurs peuvent utiliser cette commande.",
        Msg::AdministrateActionDescription => "Action d'administration à exécuter",
        Msg::AdministrateCommandDescription => "Ouvrir le panneau d'administration",
        Msg::AdministrateHelp => "Commandes d'administration : booru, tags, moderator, server, setting, channel, patterns, help.",
        Msg::ArtHistoryAttachmentFilename => "historique-art.txt",
        Msg::ArtHistoryCommandDescription => "Afficher les derniers liens sources publiés dans ce salon",
        Msg::ArtHistoryError => "Impossible de lire l'historique : {error}",
        Msg::ArtHistoryNoLinks => "Aucun lien source n'a encore été publié dans ce salon.",
        Msg::ArtHistoryOptionDescription => "Nombre d'images précédentes à afficher",
        Msg::ArtHistoryShowingAll => "Seuls {shown} des {requested} liens demandés existent ; ils sont tous affichés.",
        Msg::ArtHistoryShowingCount => "Affichage des {shown} derniers liens.",
        Msg::ChannelNotAllowed => "Les commandes ne sont pas activées dans ce salon.",
        Msg::ChannelPatternsEmpty => "Aucun tag n'est bloqué dans ce salon.",
        Msg::ChannelTagBlocked => "Le tag `{tag}` est bloqué dans ce salon.",
        Msg::CommandNotRegistered => "Cette commande n'est pas enregistrée.",
        Msg::CouldNotFindImage => "Impossible de trouver une image : {error}",
        Msg::CustomCommandDescription => "Chercher sur {booru} avec vos propres tags",
        Msg::CustomCommandNoTags => "Donnez au moins un tag.",
        Msg::CustomTagOptionDescription => "Un tag supplémentaire",
        Msg::PatternCommandDescription => "Publier une image {pattern} au hasard",
        Msg::ReloadTomlAlreadyInProgress => "Un rechargement est déjà en cours.",
        Msg::ReloadTomlCommandDescription => "Recharger la configuration du bot",
        Msg::ReloadTomlFinished => "Rechargement terminé.",
        Msg::ReloadTomlInProgress => "Le bot se recharge ; réessayez dans un instant.",
        Msg::ReloadTomlWaiting => "Attente de la fin des commandes en cours avant le rechargement...",
        Msg::RequiredTagOptionDescription => "Un tag à rechercher",
        Msg::ServerNotValidated => "Ce serveur n'a pas encore été validé.",
        Msg::TagNotRegistered => "Le tag `{pattern}` n'est pas activé sur ce serveur.",
    }
}

/// The text of a message in a language, placeholders unfilled.
pub open spec fn template(language: Language, key: Msg) -> Seq<char> {
    match language {
        Language::En => en_spec(key),
        Language::Fr => fr_spec(key),
    }
}

/// The language that a setting names: trimmed and ASCII-lowercased, it must
/// be `en` or `fr`.
pub open spec fn language_named(name: Seq<char>) -> Option<Language> {
    let n = lower_seq(trim_seq(name));
    if n == "en"@ {
        Some(Language::En)
    } else if n == "fr"@ {
        Some(Language::Fr)
    } else {
        None
    }
}

/// The messages of one language.
#[derive(Clone, Copy)]
pub struct I18n {
    pub language: Language,
}

/// A language name trimmed and ASCII-lowercased.
pub fn normalize_language(language: &str) -> (r: String)
    ensures
        r@ == lower_seq(trim_seq(language@)),
{
    let v = chars_of(language);
    let t = trim_vec(&v);
    let l = lower_vec(&t);
    string_of(&l)
}

impl I18n {
    /// The messages of the named language; an error naming it when there are none.
    pub fn load(language: &str) -> (r: Result<I18n, String>)
        ensures
            match r {
                Ok(i) => language_named(language@) == Some(i.language),
                Err(e) => language_named(language@) is None && e@ == "unsupported app_lang "@
                    + lower_seq(trim_seq(language@)),
            },
    {
        let normalized = normalize_language(language);
        if str_eq(normalized.as_str(), "en") {
            Ok(I18n { language: Language::En })
        } else if str_eq(normalized.as_str(), "fr") {
            Ok(I18n { language: Language::Fr })
        } else {
            let mut v = chars_of("unsupported app_lang ");
            let n = chars_of(normalized.as_str());
            let mut i: usize = 0;
            let ghost start = v@;
            while i < n.len()
                invariant
                    i <= n.len(),
                    v@ == start + n@.take(i as int),
                decreases n.len() - i,
            {
                v.push(n[i]);
                i = i + 1;
                assert(v@ =~= start + n@.take(i as int));
            }
            assert(n@.take(n.len() as int) =~= n@);
            Err(string_of(&v))
        }
    }

    /// The names of the languages with messages.
    pub fn available_languages() -> (r: Vec<&'static str>)
        ensures
            r@.len() == 2,
            r@[0]@ == "en"@,
            r@[1]@ == "fr"@,
    {
        let mut v: Vec<&'static str> = Vec::new();
        v.push("en");
        v.push("fr");
        v
    }

    fn text(&self, key: Msg) -> (r: &'static str)
        ensures
            r@ == template(self.language, key),
    {
        match self.language {
            Language::En => en_text(key),
            Language::Fr => fr_text(key),
        }
    }

    fn render(&self, key: Msg, name: &str, value: &str) -> (r: String)
        ensures
            r@ == replace_seq(template(self.language, key), name@, value@),
    {
        replace_str(self.text(key), name, value)
    }

    /// `could_not_find_image` with `{error}` filled.
    pub fn could_not_find_image(&self, error: &str) -> (r: String)
        ensures
            r@ == replace_seq(template(self.language, Msg::CouldNotFindImage), "{error}"@, error@),
    {
        self.render(Msg::CouldNotFindImage, "{error}", error)
    }

    pub fn reload_toml_already_in_progress(&self) -> (r: &'static str)
        ensures
            r@ == template(self.language, Msg::ReloadTomlAlreadyInProgress),
    {
        self.text(Msg::ReloadTomlAlreadyInProgress)
    }

    pub fn reload_toml_waiting(&self) -> (r: &'static str)
        ensures
            r@ == template(self.language, Msg::ReloadTomlWaiting),
    {
        self.text(Msg::ReloadTomlWaiting)
    }

    pub fn reload_toml_finished(&self) -> (r: &'static str)
        ensures
            r@ == template(self.language, Msg::ReloadTomlFinished),
    {
        self.text(Msg::ReloadTomlFinished)
    }

    pub fn reload_toml_in_progress(&self) -> (r: &'static str)
        ensures
            r@ == template(self.language, Msg::ReloadTomlInProgress),
    {
        self.text(Msg::ReloadTomlInProgress)
    }

    /// `art_history_error` with `{error}` filled.
    pub fn art_history_error(&self, error: &str) -> (r: String)
        ensures
            r@ == replace_seq(template(self.language, Msg::ArtHistoryError), "{error}"@, error@),
    {
        self.render(Msg::ArtHistoryError, "{error}", error)
    }

    pub fn art_history_no_links(&self) -> (r: &'static str)
        ensures
            r@ == template(self.language, Msg::ArtHistoryNoLinks),
    {
        self.text(Msg::ArtHistoryNoLinks)
    }

    /// `art_history_showing_all` with `{requested}`, then `{shown}`, filled.
    pub fn art_history_showing_all(&self, requested: usize, shown: usize) -> (r: String)
        ensures
            r@ == replace_seq(
                replace_seq(
                    template(self.language, Msg::ArtHistoryShowingAll),
                    "{requested}"@,
                    dec(requested as nat),
                ),
                "{shown}"@,
                dec(shown as nat),
            ),
    {
        let requested = usize_to_string(requested);
        let shown = usize_to_string(shown);
        let first = self.render(Msg::ArtHistoryShowingAll, "{requested}", requested.as_str());
        replace_str(first.as_str(), "{shown}", shown.as_str())
    }

    /// `art_history_showing_count` with `{shown}` filled.
    pub fn art_history_showing_count(&self, shown: usize) -> (r: String)
        ensures
            r@ == replace_seq(
                template(self.language, Msg::ArtHistoryShowingCount),
                "{shown}"@,
                dec(shown as nat),
            ),
    {
        let shown = usize_to_string(shown);
        self.render(Msg::ArtHistoryShowingCount, "{shown}", shown.as_str())
    }

    pub fn art_history_attachment_filename(&self) -> (r: &'static str)
        ensures
            r@ == template(self.language, Msg::ArtHistoryAttachmentFilename),
    {
        self.text(Msg::ArtHistoryAttachmentFilename)
    }

    pub fn custom_command_no_tags(&self) -> (r: &'static str)
        ensures
            r@ == template(self.language, Msg::CustomCommandNoTags),
    {
        self.text(Msg::CustomCommandNoTags)
    }

    /// `custom_command_description` with `{booru}` filled.
    pub fn custom_command_description(&self, booru: &str) -> (r: String)
        ensures
            r@ == replace_seq(
                template(self.language, Msg::CustomCommandDescription),
                "{booru}"@,
                booru@,
            ),
    {
        self.render(Msg::CustomCommandDescription, "{booru}", booru)
    }

    pub fn required_tag_option_description(&self) -> (r: &'static str)
        ensures
            r@ == template(self.language, Msg::RequiredTagOptionDescription),
    {
        self.text(Msg::RequiredTagOptionDescription)
    }

    pub fn custom_tag_option_description(&self) -> (r: &'static str)
        ensures
            r@ == template(self.language, Msg::CustomTagOptionDescription),
    {
        self.text(Msg::CustomTagOptionDescription)
    }

    pub fn art_history_command_description(&self) -> (r: &'static str)
        ensures
            r@ == template(self.language, Msg::ArtHistoryCommandDescription),
    {
        self.text(Msg::ArtHistoryCommandDescription)
    }

    pub fn art_history_option_description(&self) -> (r: &'static str)
        ensures
            r@ == template(self.language, Msg::ArtHistoryOptionDescription),
    {
        self.text(Msg::ArtHistoryOptionDescription)
    }

    pub fn reload_toml_command_description(&self) -> (r: &'static str)
        ensures
            r@ == template(self.language, Msg::ReloadTomlCommandDescription),
    {
        self.text(Msg::ReloadTomlCommandDescription)
    }

    pub fn server_not_validated(&self) -> (r: &'static str)
        ensures
            r@ == template(self.language, Msg::ServerNotValidated),
    {
        self.text(Msg::ServerNotValidated)
    }

    pub fn channel_not_allowed(&self) -> (r: &'static str)
        ensures
            r@ == template(self.language, Msg::ChannelNotAllowed),
    {
        self.text(Msg::ChannelNotAllowed)
    }

    pub fn admin_only(&self) -> (r: &'static str)
        ensures
            r@ == template(self.language, Msg::AdminOnly),
    {
        self.text(Msg::AdminOnly)
    }

    pub fn administrate_help(&self) -> (r: &'static str)
        ensures
            r@ == template(self.language, Msg::AdministrateHelp),
    {
        self.text(Msg::AdministrateHelp)
    }

    pub fn administrate_command_description(&self) -> (r: &'static str)
        ensures
            r@ == template(self.language, Msg::AdministrateCommandDescription),
    {
        self.text(Msg::AdministrateCommandDescription)
    }

    pub fn administrate_action_description(&self) -> (r: &'static str)
        ensures
            r@ == template(self.language, Msg::AdministrateActionDescription),
    {
        self.text(Msg::AdministrateActionDescription)
    }

    /// `pattern_command_description` with `{pattern}` filled.
    pub fn pattern_command_description(&self, pattern: &str) -> (r: String)
        ensures
            r@ == replace_seq(
                template(self.language, Msg::PatternCommandDescription),
                "{pattern}"@,
                pattern@,
            ),
    {
        self.render(Msg::PatternCommandDescription, "{pattern}", pattern)
    }

    /// `channel_tag_blocked` with `{tag}` filled.
    pub fn channel_tag_blocked(&self, tag: &str) -> (r: String)
        ensures
            r@ == replace_seq(template(self.language, Msg::ChannelTagBlocked), "{tag}"@, tag@),
    {
        self.render(Msg::ChannelTagBlocked, "{tag}", tag)
    }

    /// `tag_not_registered` with `{pattern}` filled.
    pub fn tag_not_registered(&self, pattern: &str) -> (r: String)
        ensures
            r@ == replace_seq(
                template(self.language, Msg::TagNotRegistered),
                "{pattern}"@,
                pattern@,
            ),
    {
        self.render(Msg::TagNotRegistered, "{pattern}", pattern)
    }

    pub fn command_not_registered(&self) -> (r: &'static str)
        ensures
            r@ == template(self.language, Msg::CommandNotRegistered),
    {
        self.text(Msg::CommandNotRegistered)
    }

    pub fn channel_patterns_empty(&self) -> (r: &'static str)
        ensures
            r@ == template(self.language, Msg::ChannelPatternsEmpty),
    {
        self.text(Msg::ChannelPatternsEmpty)
    }
}

} // verus!
