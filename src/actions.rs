//! What is done once a new image is on disk: setting it as wallpaper, by
//! the user's commands or the default setter, and telling the user.
use vstd::prelude::*;
use vstd::string::*;
use inflector::Inflector;
use crate::args::{mode, mode_flag, Arguments};
use crate::text::{replace_char, replace_char_spec};

verus! {

/// Inflector's PascalCase form of `s`.
pub uninterp spec fn pascal_case_of(s: Seq<char>) -> Seq<char>;

/// Relies on Inflector's `to_pascal_case`: the result depends on the text alone.
#[verifier::external_body]
fn pascal_case(s: &str) -> (r: String)
    ensures
        r@ == pascal_case_of(s@),
{
    s.to_pascal_case()
}

/// The program's name, as shown in notifications once in PascalCase.
pub open spec fn program_name() -> Seq<char> {
    "bing-wallpaper"@
}

pub open spec fn notice_body(title: Seq<char>) -> Seq<char> {
    "Wallpaper successfully Set.\nTitle: "@ + title
}

/// A desktop notification.
#[derive(Debug, Clone)]
pub struct Notice {
    pub summary: String,
    pub body: String,
    pub icon: String,
    pub image_path: String,
}

/// How the wallpaper is set.
#[derive(Debug, Clone)]
pub enum Apply {
    /// Shell commands, each run on its own and not awaited.
    Commands(Vec<String>),
    /// The default setter, with its fitting flag and the image's path.
    Setter { flag: String, path: String },
}

/// Everything done after a new image was saved.
#[derive(Debug, Clone)]
pub struct PostActions {
    pub apply: Apply,
    pub notice: Option<Notice>,
}

/// `out` is `cmds` with each `%` replaced by `path`.
pub open spec fn substituted(cmds: Seq<String>, path: Seq<char>, out: Seq<String>) -> bool {
    &&& out.len() == cmds.len()
    &&& forall|i: int| 0 <= i < out.len() ==> (#[trigger] out[i])@ == replace_char_spec(cmds[i]@, '%', path)
}

/// What is done for `args` once the image titled `title` was saved at `path`.
pub open spec fn planned_actions(args: Arguments, title: Seq<char>, path: Seq<char>, r: PostActions) -> bool {
    &&& match args.custom_command {
        Some(c) => r.apply is Commands && substituted(c@, path, r.apply->Commands_0@),
        None => r.apply is Setter && r.apply->flag@ == mode_flag(args.mode) && r.apply->path@ == path,
    }
    &&& args.silent <==> r.notice is None
    &&& match r.notice {
        Some(n) => {
            &&& n.summary@ == pascal_case_of(program_name())
            &&& n.body@ == notice_body(title)
            &&& n.icon@ == "image-jpeg"@
            &&& n.image_path@ == path
        },
        None => true,
    }
}

/// Each command with every `%` replaced by `path`.
pub fn substitute_commands(cmds: &Vec<String>, path: &str) -> (r: Vec<String>)
    ensures
        substituted(cmds@, path@, r@),
{
    let mut out: Vec<String> = Vec::new();
    let mut i: usize = 0;
    while i < cmds.len()
        invariant
            i <= cmds@.len(),
            out@.len() == i,
            forall|j: int| 0 <= j < i ==> (#[trigger] out@[j])@ == replace_char_spec(cmds@[j]@, '%', path@),
        decreases cmds@.len() - i,
    {
        out.push(replace_char(cmds[i].as_str(), '%', path));
        i = i + 1;
    }
    out
}

/// The notification that announces the image titled `title` at `path`.
pub fn notice_for(title: &str, path: &str) -> (r: Notice)
    ensures
        r.summary@ == pascal_case_of(program_name()),
        r.body@ == notice_body(title@),
        r.icon@ == "image-jpeg"@,
        r.image_path@ == path@,
{
    let mut body = String::from_str("Wallpaper successfully Set.\nTitle: ");
    body.append(title);
    Notice {
        summary: pascal_case("bing-wallpaper"),
        body,
        icon: String::from_str("image-jpeg"),
        image_path: String::from_str(path),
    }
}

/// The actions for `args` after the image titled `title` was saved at `path`:
/// the user's commands with `%` replaced by the path, or else the default
/// setter in the chosen mode; and a notification unless silenced.
pub fn post_actions(args: &Arguments, title: &str, path: &str) -> (r: PostActions)
    ensures
        planned_actions(*args, title@, path@, r),
{
    let apply = match &args.custom_command {
        Some(c) => Apply::Commands(substitute_commands(c, path)),
        None => Apply::Setter { flag: String::from_str(mode(args.mode)), path: String::from_str(path) },
    };
    let notice = if args.silent {
        None
    } else {
        Some(notice_for(title, path))
    };
    PostActions { apply, notice }
}

} // verus!
