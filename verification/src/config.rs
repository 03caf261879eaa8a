//! Configuration data contract.
//!
//! The daemon reads a JSON file holding one remote application identifier and
//! a non-empty ordered list of activities. The unverified shell parses the
//! file and hands the plain values here; this module holds the data model,
//! the startup validation rule, the built-in default configuration written on
//! first run, and the rule choosing the per-user data directory.

use vstd::prelude::*;

verus! {

use vstd::string::StringExecFns;

/// One clickable button shown under an activity: display label and target
/// URL. At most two are shown per activity (a limit the remote endpoint
/// imposes); their order is the display order.
pub struct ButtonConfig {
    pub label: String,
    pub url: String,
}

/// One configured activity: the texts and images shown while it is current,
/// and the dwell duration in seconds before rotation advances past it.
/// Immutable once loaded into a rotation cycle; replaced wholesale on reload.
pub struct ActivityConfig {
    pub name: String,
    pub details: String,
    pub state: String,
    pub large_image: Option<String>,
    pub large_text: Option<String>,
    pub small_image: Option<String>,
    pub small_text: Option<String>,
    pub duration_seconds: u64,
    pub buttons: Option<Vec<ButtonConfig>>,
}

/// The loaded configuration: the remote application identifier and the
/// ordered activity list (required non-empty at startup).
pub struct SessionConfig {
    pub application_id: String,
    pub activities: Vec<ActivityConfig>,
}

/// Why configuration loading failed. All three are fatal at startup: the
/// process must not proceed without a valid activity list.
#[derive(Clone, Copy, Debug, PartialEq, Eq, Structural)]
pub enum ConfigError {
    /// The data directory or the file could not be created or read.
    Io,
    /// The file's contents are not well-formed.
    Parse,
    /// The file parsed but holds no activities; rotation is undefined.
    EmptyActivities,
}

/// Two optional button lists hold the same buttons in the same order.
pub open spec fn opt_buttons_eq(x: Option<Vec<ButtonConfig>>, y: Option<Vec<ButtonConfig>>) -> bool {
    match (x, y) {
        (Option::None, Option::None) => true,
        (Option::Some(a), Option::Some(b)) => a@ == b@,
        _ => false,
    }
}

impl ButtonConfig {
    /// A copy holding the same label and URL.
    pub fn duplicate(&self) -> (r: ButtonConfig)
        ensures
            r == *self,
    {
        ButtonConfig { label: self.label.clone(), url: self.url.clone() }
    }
}

/// A copy of a button list, equal element by element.
pub fn duplicate_buttons(v: &Vec<ButtonConfig>) -> (r: Vec<ButtonConfig>)
    ensures
        r@ == v@,
{
    let mut r: Vec<ButtonConfig> = Vec::new();
    let mut i: usize = 0;
    while i < v.len()
        invariant
            i <= v.len(),
            r@ == v@.subrange(0, i as int),
        decreases v.len() - i,
    {
        r.push(v[i].duplicate());
        assert(v@.subrange(0, i as int).push(v@[i as int]) =~= v@.subrange(0, i + 1 as int));
        i = i + 1;
    }
    assert(v@.subrange(0, v@.len() as int) =~= v@);
    r
}

/// A copy of an optional string, holding the same text.
pub fn duplicate_opt_string(o: &Option<String>) -> (r: Option<String>)
    ensures
        r == *o,
{
    match o {
        Option::Some(s) => Option::Some(s.clone()),
        Option::None => Option::None,
    }
}

/// A copy of an optional button list, equal element by element.
pub fn duplicate_opt_buttons(o: &Option<Vec<ButtonConfig>>) -> (r: Option<Vec<ButtonConfig>>)
    ensures
        opt_buttons_eq(r, *o),
{
    match o {
        Option::Some(v) => Option::Some(duplicate_buttons(v)),
        Option::None => Option::None,
    }
}

impl SessionConfig {
    /// Startup validation: rotation is undefined with no activities, so a
    /// configuration whose list is empty is rejected.
    pub fn validate_startup(&self) -> (r: Result<(), ConfigError>)
        ensures
            (r is Ok) <==> self.activities@.len() > 0,
            (r is Err) ==> r->Err_0 == ConfigError::EmptyActivities,
    {
        if self.activities.len() == 0 {
            Err(ConfigError::EmptyActivities)
        } else {
            Ok(())
        }
    }
}

/// The activity holds exactly these texts, images and dwell duration, with
/// every optional image and caption present.
pub open spec fn default_activity_texts(
    a: ActivityConfig,
    name: Seq<char>,
    details: Seq<char>,
    state: Seq<char>,
    large_image: Seq<char>,
    large_text: Seq<char>,
    small_image: Seq<char>,
    small_text: Seq<char>,
    duration: u64,
) -> bool {
    &&& a.name@ == name
    &&& a.details@ == details
    &&& a.state@ == state
    &&& (a.large_image matches Some(s) && s@ == large_image)
    &&& (a.large_text matches Some(s) && s@ == large_text)
    &&& (a.small_image matches Some(s) && s@ == small_image)
    &&& (a.small_text matches Some(s) && s@ == small_text)
    &&& a.duration_seconds == duration
}

/// The button holds exactly this label and URL.
pub open spec fn button_is(b: ButtonConfig, label: Seq<char>, url: Seq<char>) -> bool {
    &&& b.label@ == label
    &&& b.url@ == url
}

/// The built-in sample configuration written on first run: a placeholder
/// application identifier (meant to be replaced by the user) and six sample
/// activities with short dwell durations.
pub open spec fn is_default_config(c: SessionConfig) -> bool {
    &&& c.application_id@ == "1234567890123456789"@
    &&& c.activities@.len() == 6
    &&& default_activity_texts(
        c.activities@[0],
        "commission"@,
        "💼 Open for Commissions"@,
        "Taking art requests"@,
        "award"@,
        "Commission Status"@,
        "thanks"@,
        "Available now"@,
        3,
    )
    &&& (c.activities@[0].buttons matches Some(bs) && bs@.len() == 2
        && button_is(bs@[0], "💰 Commission Info"@, "https://example.com/commissions"@)
        && button_is(bs@[1], "🎨 Portfolio"@, "https://example.com/portfolio"@))
    &&& default_activity_texts(
        c.activities@[1],
        "working"@,
        "🎨 Working on Commission"@,
        "Creating digital art"@,
        "mostrando_1"@,
        "Work in Progress"@,
        "talk_1"@,
        "Focused"@,
        5,
    )
    &&& (c.activities@[1].buttons matches Some(bs) && bs@.len() == 1
        && button_is(bs@[0], "📞 Contact Me"@, "https://example.com/contact"@))
    &&& default_activity_texts(
        c.activities@[2],
        "chatting"@,
        "💬 Chatting with Clients"@,
        "Discussing projects"@,
        "talk_2"@,
        "Client Communication"@,
        "hmmm"@,
        "Thinking..."@,
        4,
    )
    &&& (c.activities@[2].buttons matches Some(bs) && bs@.len() == 2
        && button_is(bs@[0], "💬 Chat with Me"@, "https://example.com/chat"@)
        && button_is(bs@[1], "📋 My Services"@, "https://example.com/services"@))
    &&& default_activity_texts(
        c.activities@[3],
        "surprised"@,
        "😲 Amazing Results!"@,
        "Just finished a piece"@,
        "wow"@,
        "Wow!"@,
        "thanks"@,
        "Grateful"@,
        2,
    )
    &&& (c.activities@[3].buttons matches Some(bs) && bs@.len() == 1
        && button_is(bs@[0], "🖼️ See Latest Work"@, "https://example.com/latest"@))
    &&& default_activity_texts(
        c.activities@[4],
        "confused"@,
        "🤔 Figuring things out"@,
        "Planning next project"@,
        "what"@,
        "What to do next?"@,
        "talk_3"@,
        "Brainstorming"@,
        3,
    )
    &&& (c.activities@[4].buttons matches Some(bs) && bs@.len() == 1
        && button_is(bs@[0], "💡 Suggest Ideas"@, "https://example.com/suggestions"@))
    &&& default_activity_texts(
        c.activities@[5],
        "cute_mode"@,
        "🐱 Nya~ Mode Active"@,
        "Being adorable"@,
        "nya"@,
        "Nya nya~"@,
        "talk_5"@,
        "Kawaii"@,
        6,
    )
    &&& (c.activities@[5].buttons matches Some(bs) && bs@.len() == 2
        && button_is(bs@[0], "🐾 Pet the Cat"@, "https://example.com/nya"@)
        && button_is(bs@[1], "😸 More Cute Stuff"@, "https://example.com/cute"@))
}

/// A sample button with the given label and URL.
fn default_button(label: &str, url: &str) -> (b: ButtonConfig)
    ensures
        button_is(b, label@, url@),
{
    ButtonConfig { label: String::from_str(label), url: String::from_str(url) }
}

/// A sample activity with every optional field present.
fn default_activity(
    name: &str,
    details: &str,
    state: &str,
    large_image: &str,
    large_text: &str,
    small_image: &str,
    small_text: &str,
    duration: u64,
    buttons: Vec<ButtonConfig>,
) -> (a: ActivityConfig)
    ensures
        default_activity_texts(
            a,
            name@,
            details@,
            state@,
            large_image@,
            large_text@,
            small_image@,
            small_text@,
            duration,
        ),
        a.buttons matches Some(bs) && bs == buttons,
{
    ActivityConfig {
        name: String::from_str(name),
        details: String::from_str(details),
        state: String::from_str(state),
        large_image: Some(String::from_str(large_image)),
        large_text: Some(String::from_str(large_text)),
        small_image: Some(String::from_str(small_image)),
        small_text: Some(String::from_str(small_text)),
        duration_seconds: duration,
        buttons: Some(buttons),
    }
}

/// The built-in default configuration, written to disk on first run so the
/// user has a file to edit.
pub fn default_config() -> (c: SessionConfig)
    ensures
        is_default_config(c),
{
    let mut acts: Vec<ActivityConfig> = Vec::new();

    let mut b0: Vec<ButtonConfig> = Vec::new();
    b0.push(default_button("💰 Commission Info", "https://example.com/commissions"));
    b0.push(default_button("🎨 Portfolio", "https://example.com/portfolio"));
    acts.push(default_activity(
        "commission",
        "💼 Open for Commissions",
        "Taking art requests",
        "award",
        "Commission Status",
        "thanks",
        "Available now",
        3,
        b0,
    ));

    let mut b1: Vec<ButtonConfig> = Vec::new();
    b1.push(default_button("📞 Contact Me", "https://example.com/contact"));
    acts.push(default_activity(
        "working",
        "🎨 Working on Commission",
        "Creating digital art",
        "mostrando_1",
        "Work in Progress",
        "talk_1",
        "Focused",
        5,
        b1,
    ));

    let mut b2: Vec<ButtonConfig> = Vec::new();
    b2.push(default_button("💬 Chat with Me", "https://example.com/chat"));
    b2.push(default_button("📋 My Services", "https://example.com/services"));
    acts.push(default_activity(
        "chatting",
        "💬 Chatting with Clients",
        "Discussing projects",
        "talk_2",
        "Client Communication",
        "hmmm",
        "Thinking...",
        4,
        b2,
    ));

    let mut b3: Vec<ButtonConfig> = Vec::new();
    b3.push(default_button("🖼️ See Latest Work", "https://example.com/latest"));
    acts.push(default_activity(
        "surprised",
        "😲 Amazing Results!",
        "Just finished a piece",
        "wow",
        "Wow!",
        "thanks",
        "Grateful",
        2,
        b3,
    ));

    let mut b4: Vec<ButtonConfig> = Vec::new();
    b4.push(default_button("💡 Suggest Ideas", "https://example.com/suggestions"));
    acts.push(default_activity(
        "confused",
        "🤔 Figuring things out",
        "Planning next project",
        "what",
        "What to do next?",
        "talk_3",
        "Brainstorming",
        3,
        b4,
    ));

    let mut b5: Vec<ButtonConfig> = Vec::new();
    b5.push(default_button("🐾 Pet the Cat", "https://example.com/nya"));
    b5.push(default_button("😸 More Cute Stuff", "https://example.com/cute"));
    acts.push(default_activity(
        "cute_mode",
        "🐱 Nya~ Mode Active",
        "Being adorable",
        "nya",
        "Nya nya~",
        "talk_5",
        "Kawaii",
        6,
        b5,
    ));

    SessionConfig { application_id: String::from_str("1234567890123456789"), activities: acts }
}

/// The file-change watcher reports batches of touched file names per event;
/// a reload command is issued only for a modification event that touched the
/// configuration file itself.
pub fn should_reload(is_modify: bool, file_names: &Vec<String>) -> (r: bool)
    ensures
        r == (is_modify && exists|i: int|
            0 <= i < file_names@.len() && (#[trigger] file_names@[i])@ == "config.json"@),
{
    if !is_modify {
        return false;
    }
    let target = String::from_str("config.json");
    let mut i: usize = 0;
    while i < file_names.len()
        invariant
            is_modify,
            i <= file_names@.len(),
            target@ == "config.json"@,
            forall|j: int| 0 <= j < i ==> file_names@[j]@ != "config.json"@,
        decreases file_names@.len() - i,
    {
        if file_names[i].eq(&target) {
            assert((i as int) < file_names@.len() && file_names@[i as int]@ == "config.json"@);
            return true;
        }
        i = i + 1;
    }
    false
}

/// The per-user data directory holding the configuration file and the log.
/// Resolution falls back through platform environment variables, handed in as
/// plain values: the roaming application-data directory first, the home
/// directory next, the current directory last.
pub fn app_data_dir(appdata: Option<String>, home: Option<String>) -> (dir: String)
    ensures
        appdata matches Some(base) ==> dir@ == base@ + "/lorianworkspace"@,
        appdata is None ==> (home matches Some(base) ==> dir@ == base@ + "/.lorianworkspace"@),
        appdata is None && home is None ==> dir@ == "."@,
{
    match appdata {
        Option::Some(base) => base.concat("/lorianworkspace"),
        Option::None => match home {
            Option::Some(base) => base.concat("/.lorianworkspace"),
            Option::None => String::from_str("."),
        },
    }
}

} // verus!
