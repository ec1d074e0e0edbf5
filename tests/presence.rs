use helix_presence::config::LspConfig;
use helix_presence::discord::{ActivityPayload, Discord, LinkPhase, PresenceError};
use helix_presence::document::{file_name, Document};
use helix_presence::placeholders::Placeholders;
use helix_presence::presence::{activity_preload, placeholders_for};

fn sample(language: &str) -> Placeholders {
    Placeholders::new(
        String::from("main.rs"),
        String::from("myproject"),
        String::from(language),
        String::from("https://icons.example/"),
    )
}

fn connected() -> Discord {
    let mut d = Discord::starting_at(1_700_000_000_000);
    assert!(d.create_client().is_ok());
    assert!(d.connect(true).is_ok());
    d
}

fn payload_for(config: &LspConfig, remote: Option<String>) -> ActivityPayload {
    let doc = Document::new("/home/u/myproject/src/main.rs");
    let p = placeholders_for(&doc, config, "myproject", "rust").unwrap();
    let preload = activity_preload(config, &p, &remote);
    connected().change_activity(preload).unwrap()
}

#[test]
fn upper_token_renders_upper_case() {
    assert_eq!(sample("rust").render("{language:u}"), "RUST");
}

#[test]
fn plain_token_renders_value() {
    assert_eq!(sample("rust").render("{language}"), "rust");
}

#[test]
fn unknown_tokens_are_kept() {
    let p = sample("rust");
    assert_eq!(p.render("{unknown}"), "{unknown}");
    assert_eq!(p.render("a {nope:u} b {filename}"), "a {nope:u} b main.rs");
    assert_eq!(p.render("{filename"), "{filename");
    assert_eq!(p.render("{{filename}}"), "{main.rs}");
}

#[test]
fn templates_render_all_names() {
    let p = sample("rust");
    assert_eq!(p.render("{base_icons_url}/{language}.png"), "https://icons.example//rust.png");
    assert_eq!(p.render("In {workspace}"), "In myproject");
    assert_eq!(p.render("{workspace:u}-{filename:u}"), "MYPROJECT-MAIN.RS");
    assert_eq!(p.render(""), "");
    assert_eq!(p.render("{}"), "{}");
}

#[test]
fn default_scenario_with_remote() {
    let config = LspConfig::new();
    let a = payload_for(&config, Some(String::from("https://github.com/u/myproject")));
    assert_eq!(a.state.as_deref(), Some("Working on main.rs"));
    assert_eq!(a.details.as_deref(), Some("In myproject"));
    assert_eq!(a.large_text.as_deref(), Some("RUST"));
    assert_eq!(a.small_text.as_deref(), Some("Helix"));
    assert_eq!(a.start_timestamp, 1_700_000_000_000);
    let b = a.button.unwrap();
    assert_eq!(b.label, "View Repository");
    assert_eq!(b.url, "https://github.com/u/myproject");
}

#[test]
fn no_button_when_disabled() {
    let mut config = LspConfig::new();
    config.view_repository_button = false;
    let a = payload_for(&config, Some(String::from("https://github.com/u/myproject")));
    assert!(a.button.is_none());
    let a = payload_for(&config, None);
    assert!(a.button.is_none());
}

#[test]
fn no_button_without_remote() {
    let config = LspConfig::new();
    let a = payload_for(&config, None);
    assert!(a.button.is_none());
}

#[test]
fn unset_templates_are_absent() {
    let mut config = LspConfig::new();
    config.state = None;
    config.small_image = None;
    config.details = Some(String::new());
    let a = payload_for(&config, None);
    assert!(a.state.is_none());
    assert!(a.small_image.is_none());
    assert_eq!(a.details.as_deref(), Some(""));
}

#[test]
fn failed_push_leaves_link_usable() {
    let mut d = connected();
    assert_eq!(d.push_done(false), Err(PresenceError::PushFailed));
    assert_eq!(d.phase(), LinkPhase::Connected);
    let config = LspConfig::new();
    let p = sample("rust");
    assert!(d.change_activity(activity_preload(&config, &p, &None)).is_ok());
    assert_eq!(d.push_done(true), Ok(()));
}

#[test]
fn each_change_yields_one_payload() {
    let d = connected();
    let config = LspConfig::new();
    let p = sample("rust");
    let mut sent: u32 = 0;
    for _ in 0..5 {
        if d.change_activity(activity_preload(&config, &p, &None)).is_ok() {
            sent += 1;
        }
    }
    assert_eq!(sent, 5);
}

#[test]
fn link_phases_go_forward() {
    let mut d = Discord::starting_at(42);
    assert_eq!(d.phase(), LinkPhase::Uninitialized);
    assert_eq!(d.connect(true), Err(PresenceError::NotCreated));
    assert_eq!(d.kill(true), Err(PresenceError::NothingToClose));
    let p = sample("rust");
    let config = LspConfig::new();
    assert!(matches!(
        d.change_activity(activity_preload(&config, &p, &None)),
        Err(PresenceError::NotConnected)
    ));
    assert_eq!(d.create_client(), Ok(()));
    assert_eq!(d.create_client(), Err(PresenceError::AlreadyCreated));
    assert_eq!(d.connect(false), Err(PresenceError::HandshakeFailed));
    assert_eq!(d.phase(), LinkPhase::Created);
    assert_eq!(d.connect(true), Ok(()));
    assert!(d.holds_client());
    assert_eq!(d.kill(false), Err(PresenceError::CloseFailed));
    assert_eq!(d.phase(), LinkPhase::Closed);
    assert!(!d.holds_client());
    assert!(matches!(
        d.change_activity(activity_preload(&config, &p, &None)),
        Err(PresenceError::NotConnected)
    ));
    assert_eq!(d.start_timestamp(), 42);
}

#[test]
fn start_timestamp_is_clamped() {
    assert_eq!(Discord::starting_at(u128::MAX).start_timestamp(), i64::MAX);
    assert_eq!(Discord::new().phase(), LinkPhase::Uninitialized);
}

#[test]
fn kill_closes_created_client() {
    let mut d = Discord::new();
    assert_eq!(d.create_client(), Ok(()));
    assert_eq!(d.kill(true), Ok(()));
    assert_eq!(d.phase(), LinkPhase::Closed);
}

#[test]
fn file_names_and_extensions() {
    let doc = Document::new("/home/u/my%20project/notes.tar.gz");
    assert_eq!(doc.get_filename().as_deref(), Some("notes.tar.gz"));
    assert_eq!(doc.get_extension(), "gz");
    let doc = Document::new("/home/u/My%20File.rs");
    assert_eq!(doc.get_filename().as_deref(), Some("My File.rs"));
    assert_eq!(doc.get_extension(), "rs");
    assert_eq!(Document::new("/home/u/.bashrc").get_extension(), "");
    assert_eq!(Document::new("/home/u/Makefile").get_extension(), "");
    assert_eq!(Document::new("/home/u/").get_filename(), None);
    assert_eq!(Document::new("/home/u/").get_extension(), "");
    assert_eq!(Document::new("/home/u/bad%FF").get_filename(), None);
    assert_eq!(file_name("/home/u/myproject").as_deref(), Some("myproject"));
    assert_eq!(file_name("plain").as_deref(), Some("plain"));
}

#[test]
fn placeholders_need_a_file_name() {
    let config = LspConfig::new();
    assert!(placeholders_for(&Document::new("/dir/"), &config, "w", "rust").is_none());
    let p = placeholders_for(&Document::new("/dir/a%2Bb.py"), &config, "w", "python").unwrap();
    assert_eq!(p.filename, "a+b.py");
    assert_eq!(p.base_icons_url, config.base_icons_url);
}

#[test]
fn default_config() {
    let c = LspConfig::new();
    assert_eq!(c.application_id, "1330779433946189906");
    assert_eq!(c.state.as_deref(), Some("Working on {filename}"));
    assert_eq!(c.large_image.as_deref(), Some("{base_icons_url}/{language}.png"));
    assert!(c.view_repository_button);
}
