//! The plugin's self-description: identity, UI widgets per location, and the
//! configuration items it keeps.
use vstd::prelude::*;
use vstd::string::StringExecFns;
use crate::json::{json_quote, json_string};

verus! {

pub const CONFIG_VALUE_TRUE: &'static str = "1";
pub const CONFIG_VALUE_FALSE: &'static str = "0";

pub struct UiButton {
    pub key: String,
    pub text: String,
    /// An icon name or code, as the host's UI framework reads it.
    pub icon: String,
    pub tooltip: String,
    /// The action triggered when the button is clicked.
    pub action: String,
}

pub struct UiCheckbox {
    pub key: String,
    pub text: String,
    pub tooltip: String,
    /// The action triggered when the checkbox is checked or unchecked.
    pub action: String,
}

pub enum UiType {
    Button(UiButton),
    Checkbox(UiCheckbox),
}

/// The widget shown at each UI location, one per location, in the order they
/// were added.
pub struct Location {
    pub ui: Vec<(String, UiType)>,
}

impl Location {
    /// No location has two widgets.
    pub open spec fn wf(&self) -> bool {
        forall|i: int, j: int| 0 <= i < j < self.ui@.len() ==> self.ui@[i].0@ != self.ui@[j].0@
    }
}

pub struct ConfigItem {
    pub key: String,
    pub default: String,
    pub description: String,
}

pub struct Config {
    pub shared: Vec<ConfigItem>,
    pub peer: Vec<ConfigItem>,
}

pub struct Desc {
    pub id: String,
    pub name: String,
    pub version: String,
    pub description: String,
    pub author: String,
    pub home: String,
    pub license: String,
    pub published: String,
    pub released: String,
    pub github: String,
    pub location: Location,
    pub config: Config,
}

/// The parts joined with commas.
pub open spec fn comma_joined(parts: Seq<Seq<char>>) -> Seq<char>
    decreases parts.len(),
{
    if parts.len() == 0 {
        Seq::empty()
    } else if parts.len() == 1 {
        parts[0]
    } else {
        comma_joined(parts.drop_last()) + ","@ + parts.last()
    }
}

/// `"name":` followed by the JSON string literal of `value`.
pub open spec fn member(name: Seq<char>, value: Seq<char>) -> Seq<char> {
    json_string(name) + ":"@ + json_string(value)
}

impl UiButton {
    pub open spec fn json(&self) -> Seq<char> {
        "{"@ + member("key"@, self.key@) + ","@ + member("text"@, self.text@) + ","@ + member("icon"@, self.icon@)
            + ","@ + member("tooltip"@, self.tooltip@) + ","@ + member("action"@, self.action@) + "}"@
    }
}

impl UiCheckbox {
    pub open spec fn json(&self) -> Seq<char> {
        "{"@ + member("key"@, self.key@) + ","@ + member("text"@, self.text@) + ","@ + member(
            "tooltip"@,
            self.tooltip@,
        ) + ","@ + member("action"@, self.action@) + "}"@
    }
}

impl UiType {
    /// The widget's JSON text, tagged with its kind.
    pub open spec fn json(&self) -> Seq<char> {
        match self {
            UiType::Button(b) => "{\"t\":\"Button\",\"c\":"@ + b.json() + "}"@,
            UiType::Checkbox(c) => "{\"t\":\"Checkbox\",\"c\":"@ + c.json() + "}"@,
        }
    }
}

/// One member of the location map: the location, then its widget.
pub open spec fn ui_entry_json(e: (String, UiType)) -> Seq<char> {
    json_string(e.0@) + ":"@ + e.1.json()
}

impl Location {
    pub open spec fn json(&self) -> Seq<char> {
        "{\"ui\":{"@ + comma_joined(self.ui@.map_values(|e: (String, UiType)| ui_entry_json(e))) + "}}"@
    }
}

impl ConfigItem {
    pub open spec fn json(&self) -> Seq<char> {
        "{"@ + member("key"@, self.key@) + ","@ + member("default"@, self.default@) + ","@ + member(
            "description"@,
            self.description@,
        ) + "}"@
    }
}

/// The JSON array of configuration items.
pub open spec fn items_json(items: Seq<ConfigItem>) -> Seq<char> {
    "["@ + comma_joined(items.map_values(|i: ConfigItem| i.json())) + "]"@
}

impl Config {
    pub open spec fn json(&self) -> Seq<char> {
        "{\"shared\":"@ + items_json(self.shared@) + ",\"peer\":"@ + items_json(self.peer@) + "}"@
    }
}

impl Desc {
    /// The descriptor's JSON text, as the host reads it.
    pub open spec fn json(&self) -> Seq<char> {
        "{"@ + member("id"@, self.id@) + ","@ + member("name"@, self.name@) + ","@ + member("version"@, self.version@)
            + ","@ + member("description"@, self.description@) + ","@ + member("author"@, self.author@) + ","@
            + member("home"@, self.home@) + ","@ + member("license"@, self.license@) + ","@ + member(
            "published"@,
            self.published@,
        ) + ","@ + member("released"@, self.released@) + ","@ + member("github"@, self.github@)
            + ",\"location\":"@ + self.location.json() + ",\"config\":"@ + self.config.json() + "}"@
    }
}

/// Appends `"name":` and the JSON string literal of `value` to `out`.
fn append_member(out: &mut String, name: &str, value: &str)
    ensures
        final(out)@ == old(out)@ + member(name@, value@),
{
    out.append(json_quote(name).as_str());
    out.append(":");
    out.append(json_quote(value).as_str());
    assert(final(out)@ =~= old(out)@ + member(name@, value@));
}

proof fn lemma_comma_joined_push(parts: Seq<Seq<char>>, i: int)
    requires
        0 <= i < parts.len(),
    ensures
        comma_joined(parts.take(i + 1)) == if i == 0 {
            parts[0]
        } else {
            comma_joined(parts.take(i)) + ","@ + parts[i]
        },
{
    assert(parts.take(i + 1).drop_last() =~= parts.take(i));
}

impl UiButton {
    pub fn to_json(&self) -> (r: String)
        ensures
            r@ == self.json(),
    {
        let mut out = String::from_str("{");
        append_member(&mut out, "key", self.key.as_str());
        out.append(",");
        append_member(&mut out, "text", self.text.as_str());
        out.append(",");
        append_member(&mut out, "icon", self.icon.as_str());
        out.append(",");
        append_member(&mut out, "tooltip", self.tooltip.as_str());
        out.append(",");
        append_member(&mut out, "action", self.action.as_str());
        out.append("}");
        assert(out@ =~= self.json());
        out
    }
}

impl UiCheckbox {
    pub fn to_json(&self) -> (r: String)
        ensures
            r@ == self.json(),
    {
        let mut out = String::from_str("{");
        append_member(&mut out, "key", self.key.as_str());
        out.append(",");
        append_member(&mut out, "text", self.text.as_str());
        out.append(",");
        append_member(&mut out, "tooltip", self.tooltip.as_str());
        out.append(",");
        append_member(&mut out, "action", self.action.as_str());
        out.append("}");
        assert(out@ =~= self.json());
        out
    }
}

impl UiType {
    pub fn to_json(&self) -> (r: String)
        ensures
            r@ == self.json(),
    {
        match self {
            UiType::Button(b) => {
                let mut out = String::from_str("{\"t\":\"Button\",\"c\":");
                out.append(b.to_json().as_str());
                out.append("}");
                out
            },
            UiType::Checkbox(c) => {
                let mut out = String::from_str("{\"t\":\"Checkbox\",\"c\":");
                out.append(c.to_json().as_str());
                out.append("}");
                out
            },
        }
    }
}

impl Location {
    pub fn to_json(&self) -> (r: String)
        requires
            self.wf(),
        ensures
            r@ == self.json(),
    {
        let ghost parts = self.ui@.map_values(|e: (String, UiType)| ui_entry_json(e));
        let mut out = String::from_str("{\"ui\":{");
        let ghost start = out@;
        let mut i: usize = 0;
        assert(parts.take(0) =~= Seq::<Seq<char>>::empty());
        while i < self.ui.len()
            invariant
                i <= self.ui@.len(),
                parts == self.ui@.map_values(|e: (String, UiType)| ui_entry_json(e)),
                out@ == start + comma_joined(parts.take(i as int)),
            decreases self.ui@.len() - i,
        {
            proof {
                lemma_comma_joined_push(parts, i as int);
            }
            if i > 0 {
                out.append(",");
            }
            let entry = &self.ui[i];
            out.append(json_quote(entry.0.as_str()).as_str());
            out.append(":");
            out.append(entry.1.to_json().as_str());
            i = i + 1;
            assert(out@ =~= start + comma_joined(parts.take(i as int)));
        }
        assert(parts.take(i as int) =~= parts);
        out.append("}}");
        assert(out@ =~= self.json());
        out
    }
}

impl ConfigItem {
    pub fn to_json(&self) -> (r: String)
        ensures
            r@ == self.json(),
    {
        let mut out = String::from_str("{");
        append_member(&mut out, "key", self.key.as_str());
        out.append(",");
        append_member(&mut out, "default", self.default.as_str());
        out.append(",");
        append_member(&mut out, "description", self.description.as_str());
        out.append("}");
        assert(out@ =~= self.json());
        out
    }
}

/// Appends the JSON array of `items` to `out`.
fn append_items(out: &mut String, items: &Vec<ConfigItem>)
    ensures
        final(out)@ == old(out)@ + items_json(items@),
{
    let ghost parts = items@.map_values(|i: ConfigItem| i.json());
    out.append("[");
    let ghost start = out@;
    let mut i: usize = 0;
    assert(parts.take(0) =~= Seq::<Seq<char>>::empty());
    while i < items.len()
        invariant
            i <= items@.len(),
            parts == items@.map_values(|i: ConfigItem| i.json()),
            out@ == start + comma_joined(parts.take(i as int)),
        decreases items@.len() - i,
    {
        proof {
            lemma_comma_joined_push(parts, i as int);
        }
        if i > 0 {
            out.append(",");
        }
        out.append(items[i].to_json().as_str());
        i = i + 1;
        assert(out@ =~= start + comma_joined(parts.take(i as int)));
    }
    assert(parts.take(i as int) =~= parts);
    out.append("]");
    assert(final(out)@ =~= old(out)@ + items_json(items@));
}

impl Config {
    pub fn to_json(&self) -> (r: String)
        ensures
            r@ == self.json(),
    {
        let mut out = String::from_str("{\"shared\":");
        append_items(&mut out, &self.shared);
        out.append(",\"peer\":");
        append_items(&mut out, &self.peer);
        out.append("}");
        assert(out@ =~= self.json());
        out
    }
}

impl Desc {
    pub fn to_json(&self) -> (r: String)
        requires
            self.location.wf(),
        ensures
            r@ == self.json(),
    {
        let mut out = String::from_str("{");
        append_member(&mut out, "id", self.id.as_str());
        out.append(",");
        append_member(&mut out, "name", self.name.as_str());
        out.append(",");
        append_member(&mut out, "version", self.version.as_str());
        out.append(",");
        append_member(&mut out, "description", self.description.as_str());
        out.append(",");
        append_member(&mut out, "author", self.author.as_str());
        out.append(",");
        append_member(&mut out, "home", self.home.as_str());
        out.append(",");
        append_member(&mut out, "license", self.license.as_str());
        out.append(",");
        append_member(&mut out, "published", self.published.as_str());
        out.append(",");
        append_member(&mut out, "released", self.released.as_str());
        out.append(",");
        append_member(&mut out, "github", self.github.as_str());
        out.append(",\"location\":");
        out.append(self.location.to_json().as_str());
        out.append(",\"config\":");
        out.append(self.config.to_json().as_str());
        out.append("}");
        assert(out@ =~= self.json());
        out
    }
}

} // verus!
