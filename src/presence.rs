use vstd::prelude::*;
use vstd::string::StrSliceExecFns;

use crate::config::LspConfig;
use crate::discord::{repository_button, DiscordActivityPreload};
use crate::document::{file_name_of, opt_view, url_decoded, Document};
use crate::placeholders::Placeholders;

verus! {

/// A configured template rendered, or nothing where none is configured.
pub open spec fn render_field(p: &Placeholders, template: Option<String>) -> Option<Seq<char>> {
    match template {
        Some(t) => Some(p.rendered(t@)),
        None => None,
    }
}

/// The repository a status links to: the detected remote, where the button is
/// asked for.
pub open spec fn repository_link(config: &LspConfig, remote: Option<String>) -> Option<Seq<char>> {
    if config.view_repository_button {
        opt_view(remote)
    } else {
        None
    }
}

fn render_opt(p: &Placeholders, template: &Option<String>) -> (r: Option<String>)
    ensures
        opt_view(r) == render_field(p, *template),
{
    match template {
        Some(t) => Some(p.render(t.as_str())),
        None => None,
    }
}

/// The values for the templates while `doc` is the active document: its
/// decoded file name, the workspace name, the language label and the icon base
/// URL. `None` where the document has no file name that decodes.
pub fn placeholders_for(doc: &Document, config: &LspConfig, workspace: &str, language: &str) -> (r:
    Option<Placeholders>)
    ensures
        match r {
            Some(p) => {
                &&& file_name_of(doc.path@) matches Some(name) && url_decoded(name) == Some(p.filename@)
                &&& p.workspace@ == workspace@
                &&& p.language@ == language@
                &&& p.base_icons_url@ == config.base_icons_url@
            },
            None => match file_name_of(doc.path@) {
                Some(name) => url_decoded(name) is None,
                None => true,
            },
        },
{
    match doc.get_filename() {
        Some(filename) => Some(
            Placeholders::new(
                filename,
                workspace.to_owned(),
                language.to_owned(),
                config.base_icons_url.clone(),
            ),
        ),
        None => None,
    }
}

/// Renders every configured template of `config` with `p`; a field with no
/// template stays unset. The repository is linked where `config` asks for the
/// button and a remote was detected.
pub fn activity_preload(config: &LspConfig, p: &Placeholders, git_remote_url: &Option<String>) -> (r:
    DiscordActivityPreload)
    ensures
        opt_view(r.state) == render_field(p, config.state),
        opt_view(r.details) == render_field(p, config.details),
        opt_view(r.large_image) == render_field(p, config.large_image),
        opt_view(r.large_text) == render_field(p, config.large_text),
        opt_view(r.small_image) == render_field(p, config.small_image),
        opt_view(r.small_text) == render_field(p, config.small_text),
        opt_view(r.git_remote_url) == repository_link(config, *git_remote_url),
{
    DiscordActivityPreload {
        state: render_opt(p, &config.state),
        details: render_opt(p, &config.details),
        large_image: render_opt(p, &config.large_image),
        large_text: render_opt(p, &config.large_text),
        small_image: render_opt(p, &config.small_image),
        small_text: render_opt(p, &config.small_text),
        git_remote_url: if config.view_repository_button {
            git_remote_url.clone()
        } else {
            None
        },
    }
}

/// A field with no template is absent from the status; a field with one is
/// present, however short its rendering.
pub proof fn lemma_unset_field_absent(p: &Placeholders, template: Option<String>)
    ensures
        render_field(p, template) is None <==> template is None,
{
}

/// The status carries the repository button exactly when the button is asked for
/// and a remote was detected; it then opens that remote.
pub proof fn lemma_button_iff_enabled_and_remote(config: &LspConfig, remote: Option<String>)
    ensures
        repository_button(repository_link(config, remote)) is Some <==> (config.view_repository_button
            && remote is Some),
        repository_button(repository_link(config, remote)) matches Some(b) ==> b.1 == remote->0@,
{
}

} // verus!
