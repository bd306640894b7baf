//! The demonstration plugin's descriptor.
use vstd::prelude::*;
use crate::desc::{Config, ConfigItem, Desc, Location, UiCheckbox, UiType, CONFIG_VALUE_FALSE};

verus! {

pub const ID: &'static str = "TemplateTestIdRust";
pub const NAME: &'static str = "RustDesk Plugin Template";
pub const VERSION: &'static str = "v0.1.0";
pub const UI_HOST_MAIN_LOCATION: &'static str = "host|main|settings|plugin";
pub const UI_HOST_MAIN_KEY: &'static str = "allow-opt";
pub const UI_CLIENT_REMOTE_LOCATION: &'static str = "client|remote|toolbar|display";
pub const UI_CLIENT_REMOTE_KEY: &'static str = "peer-opt";

/// A checkbox with the given key and label, without tooltip or action.
pub open spec fn is_plain_checkbox(w: UiType, key: Seq<char>, text: Seq<char>) -> bool {
    w matches UiType::Checkbox(c) && c.key@ == key && c.text@ == text && c.tooltip@ == ""@ && c.action@ == ""@
}

/// A configuration item with the given key, default and description.
pub open spec fn is_item(i: ConfigItem, key: Seq<char>, default: Seq<char>, description: Seq<char>) -> bool {
    i.key@ == key && i.default@ == default && i.description@ == description
}

/// The demonstration plugin's descriptor: its identity, a checkbox in the
/// host's settings and one in the remote toolbar, and the shared and per-peer
/// option that those checkboxes control, both off by default.
pub open spec fn is_template_desc(d: &Desc) -> bool {
    &&& d.id@ == ID@
    &&& d.name@ == NAME@
    &&& d.version@ == VERSION@
    &&& d.description@ == ""@
    &&& d.author@ == "RustDesk"@
    &&& d.home@ == "https://rustdesk.com"@
    &&& d.license@ == "MIT"@
    &&& d.published@ == "2020-02-03 13:05:02"@
    &&& d.released@ == "2023-02-03 13:05:02"@
    &&& d.github@ == "https://github/demo"@
    &&& d.location.wf()
    &&& d.location.ui@.len() == 2
    &&& d.location.ui@[0].0@ == UI_HOST_MAIN_LOCATION@
    &&& is_plain_checkbox(d.location.ui@[0].1, UI_HOST_MAIN_KEY@, "Allow option"@)
    &&& d.location.ui@[1].0@ == UI_CLIENT_REMOTE_LOCATION@
    &&& is_plain_checkbox(d.location.ui@[1].1, UI_CLIENT_REMOTE_KEY@, "Option to peer"@)
    &&& d.config.shared@.len() == 1
    &&& is_item(d.config.shared@[0], UI_HOST_MAIN_KEY@, CONFIG_VALUE_FALSE@, "Allow option"@)
    &&& d.config.peer@.len() == 1
    &&& is_item(d.config.peer@[0], UI_CLIENT_REMOTE_KEY@, CONFIG_VALUE_FALSE@, "Trigger option on peer side"@)
}

fn plain_checkbox(key: &str, text: &str) -> (r: UiType)
    ensures
        is_plain_checkbox(r, key@, text@),
{
    UiType::Checkbox(UiCheckbox { key: key.to_owned(), text: text.to_owned(), tooltip: "".to_owned(), action: "".to_owned() })
}

/// The demonstration plugin's descriptor.
pub fn get_desc() -> (r: Desc)
    ensures
        is_template_desc(&r),
{
    let mut ui: Vec<(String, UiType)> = Vec::new();
    ui.push((UI_HOST_MAIN_LOCATION.to_owned(), plain_checkbox(UI_HOST_MAIN_KEY, "Allow option")));
    ui.push((UI_CLIENT_REMOTE_LOCATION.to_owned(), plain_checkbox(UI_CLIENT_REMOTE_KEY, "Option to peer")));
    let mut shared: Vec<ConfigItem> = Vec::new();
    shared.push(
        ConfigItem {
            key: UI_HOST_MAIN_KEY.to_owned(),
            default: CONFIG_VALUE_FALSE.to_owned(),
            description: "Allow option".to_owned(),
        },
    );
    let mut peer: Vec<ConfigItem> = Vec::new();
    peer.push(
        ConfigItem {
            key: UI_CLIENT_REMOTE_KEY.to_owned(),
            default: CONFIG_VALUE_FALSE.to_owned(),
            description: "Trigger option on peer side".to_owned(),
        },
    );
    proof {
        reveal_strlit("host|main|settings|plugin");
        reveal_strlit("client|remote|toolbar|display");
    }
    let location = Location { ui };
    assert(location.ui@[0].0@.len() != location.ui@[1].0@.len());
    Desc {
        id: ID.to_owned(),
        name: NAME.to_owned(),
        version: VERSION.to_owned(),
        description: "".to_owned(),
        author: "RustDesk".to_owned(),
        home: "https://rustdesk.com".to_owned(),
        license: "MIT".to_owned(),
        published: "2020-02-03 13:05:02".to_owned(),
        released: "2023-02-03 13:05:02".to_owned(),
        github: "https://github/demo".to_owned(),
        location,
        config: Config { shared, peer },
    }
}

/// The demonstration plugin's descriptor as JSON text.
pub fn get_desc_string() -> (r: String)
    ensures
        exists|d: Desc| is_template_desc(&d) && r@ == d.json(),
{
    let d = get_desc();
    d.to_json()
}

} // verus!
