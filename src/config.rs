use vstd::prelude::*;
use vstd::string::StringExecFns;

verus! {

/// Settings of the presence display: the application it reports to, where icons
/// are found, the templates of each displayed field (an unset one is not shown)
/// and whether a button links to the repository.
pub struct LspConfig {
    pub application_id: String,
    pub base_icons_url: String,
    pub state: Option<String>,
    pub details: Option<String>,
    pub large_image: Option<String>,
    pub large_text: Option<String>,
    pub small_image: Option<String>,
    pub small_text: Option<String>,
    pub view_repository_button: bool,
}

pub open spec fn holds_text(o: Option<String>, s: &str) -> bool {
    o is Some && o->0@ == s@
}

impl LspConfig {
    /// The default settings.
    pub fn new() -> (r: Self)
        ensures
            r.application_id@ == "1330779433946189906"@,
            r.base_icons_url@
                == "https://raw.githubusercontent.com/takuma-shishido/helix-discord-presence/main/assets/icons/"@,
            holds_text(r.state, "Working on {filename}"),
            holds_text(r.details, "In {workspace}"),
            holds_text(r.large_image, "{base_icons_url}/{language}.png"),
            holds_text(r.large_text, "{language:u}"),
            holds_text(r.small_image, "{base_icons_url}/helix.png"),
            holds_text(r.small_text, "Helix"),
            r.view_repository_button,
    {
        LspConfig {
            application_id: String::from_str("1330779433946189906"),
            base_icons_url: String::from_str(
                "https://raw.githubusercontent.com/takuma-shishido/helix-discord-presence/main/assets/icons/",
            ),
            state: Some(String::from_str("Working on {filename}")),
            details: Some(String::from_str("In {workspace}")),
            large_image: Some(String::from_str("{base_icons_url}/{language}.png")),
            large_text: Some(String::from_str("{language:u}")),
            small_image: Some(String::from_str("{base_icons_url}/helix.png")),
            small_text: Some(String::from_str("Helix")),
            view_repository_button: true,
        }
    }
}

} // verus!
