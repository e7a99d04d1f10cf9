use app_installer::app_info::AppInfo;
use app_installer::deposit::{get_programs, Deposit};

fn app(name: &str, install: bool) -> AppInfo {
    AppInfo {
        name: name.to_string(),
        install,
        path: format!("/share/{}", name),
        ins_type: "msi".to_string(),
    }
}

fn names(apps: &[AppInfo]) -> Vec<String> {
    apps.iter().map(|a| a.name.clone()).collect()
}

#[test]
fn from_then_get_all_gives_content_back() {
    let content = vec![app("Chrome Setup.msi", false), app("7z2404-x64.msi", true)];
    let deposit = Deposit::from(content.clone());
    assert_eq!(deposit.get_all(), content);
}

#[test]
fn empty_deposit_holds_nothing() {
    let deposit = Deposit::from(Vec::new());
    assert!(deposit.get_all().is_empty());
    assert!(deposit.search("").is_empty());
}

#[test]
fn push_appends_at_the_end() {
    let mut deposit = Deposit::from(vec![app("a.msi", false)]);
    deposit.push(app("b.exe", true));
    assert_eq!(deposit.get_all(), vec![app("a.msi", false), app("b.exe", true)]);
}

#[test]
fn replace_drops_old_content() {
    let mut deposit = Deposit::from(vec![app("a.msi", false), app("b.msi", false)]);
    deposit.replace(vec![app("c.msi", true)]);
    assert_eq!(deposit.get_all(), vec![app("c.msi", true)]);
}

#[test]
fn search_finds_names_containing_the_text_in_order() {
    let deposit = Deposit::from(vec![
        app("Chrome Setup.msi", false),
        app("LibreOffice 7.4.1 x64.msi", false),
        app("Adobe Reader x64.exe", false),
        app("7z2404-x64.msi", false),
    ]);
    assert_eq!(
        names(&deposit.search("x64")),
        vec!["LibreOffice 7.4.1 x64.msi", "Adobe Reader x64.exe", "7z2404-x64.msi"]
    );
    assert_eq!(names(&deposit.search("Setup")), vec!["Chrome Setup.msi"]);
}

#[test]
fn search_is_case_sensitive() {
    let deposit = Deposit::from(vec![app("Chrome Setup.msi", false)]);
    assert!(deposit.search("chrome").is_empty());
    assert_eq!(deposit.search("Chrome").len(), 1);
}

#[test]
fn search_for_empty_text_finds_everything() {
    let content = vec![app("a.msi", false), app("b.exe", true)];
    let deposit = Deposit::from(content.clone());
    assert_eq!(deposit.search(""), content);
}

#[test]
fn search_longer_than_any_name_finds_nothing() {
    let deposit = Deposit::from(vec![app("a.msi", false)]);
    assert!(deposit.search("a.msi and more").is_empty());
}

#[test]
fn search_matches_the_whole_name_and_non_ascii_text() {
    let deposit = Deposit::from(vec![app("Instalación ñandú.exe", false), app("a.msi", false)]);
    assert_eq!(names(&deposit.search("ñandú")), vec!["Instalación ñandú.exe"]);
    assert_eq!(names(&deposit.search("a.msi")), vec!["a.msi"]);
}

#[test]
fn search_after_push_sees_the_new_program() {
    let mut deposit = Deposit::from(vec![app("Chrome Setup.msi", false)]);
    deposit.push(app("Chromium.exe", false));
    assert_eq!(names(&deposit.search("Chrom")), vec!["Chrome Setup.msi", "Chromium.exe"]);
}

#[test]
fn search_of_a_search_result_is_narrowing() {
    let deposit = Deposit::from(vec![app("ab.msi", false), app("abc.msi", false), app("b.msi", false)]);
    let wide = Deposit::from(deposit.search("b"));
    assert_eq!(wide.search("abc"), deposit.search("abc"));
    assert_eq!(wide.search("b"), deposit.search("b"));
}

#[test]
fn get_programs_picks_the_deposit_by_connectivity() {
    let online = Deposit::from(vec![app("online.msi", false)]);
    let local = Deposit::from(vec![app("local.msi", false)]);
    assert_eq!(names(&get_programs(&online, &local, true)), vec!["online.msi"]);
    assert_eq!(names(&get_programs(&online, &local, false)), vec!["local.msi"]);
}
