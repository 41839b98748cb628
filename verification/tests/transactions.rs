use clard::tui::transactions::{
    ProfileSwitch, ProfileUpdate, SwitchAction, SwitchStep, UpdateAction, UpdateEvent, UpdateStep,
};

#[test]
fn switch_runs_every_step_and_starts_a_stopped_core() {
    let (mut s, first) = ProfileSwitch::start("b".into(), Some("a".into()));
    assert_eq!(first, SwitchAction::SetCurrent("b".into()));
    assert_eq!(s.advance(Ok(String::new())), SwitchAction::GetProfile("b".into()));
    assert_eq!(s.advance(Ok("proxies: []".into())), SwitchAction::Generate("proxies: []".into()));
    assert_eq!(s.advance(Ok("runtime".into())), SwitchAction::ApplyConfig("runtime".into()));
    assert_eq!(s.advance(Ok(String::new())), SwitchAction::QueryStatus);
    assert_eq!(s.advance(Ok("stopped".into())), SwitchAction::StartCore);
    assert_eq!(s.advance(Ok(String::new())), SwitchAction::Finish(Ok("switched to b".into())));
    assert_eq!(s.step, SwitchStep::Finished);
    assert_eq!(s.advance(Ok(String::new())), SwitchAction::Idle);
}

#[test]
fn switch_skips_the_start_when_the_core_runs() {
    let (mut s, _) = ProfileSwitch::start("b".into(), None);
    s.advance(Ok(String::new()));
    s.advance(Ok("y".into()));
    s.advance(Ok("r".into()));
    s.advance(Ok(String::new()));
    assert_eq!(s.advance(Ok("running".into())), SwitchAction::Finish(Ok("switched to b".into())));
    let (mut t, _) = ProfileSwitch::start("c".into(), None);
    t.step = SwitchStep::Checking;
    assert_eq!(t.advance(Err("no status".into())), SwitchAction::Finish(Ok("switched to c".into())));
}

#[test]
fn switch_failure_restores_the_previous_profile() {
    let (mut s, _) = ProfileSwitch::start("b".into(), Some("a".into()));
    s.advance(Ok(String::new()));
    s.advance(Ok("y".into()));
    assert_eq!(s.advance(Err("bad yaml".into())), SwitchAction::SetCurrent("a".into()));
    assert_eq!(s.step, SwitchStep::RollingBack("生成运行态配置失败: bad yaml".into()));
    assert_eq!(s.advance(Ok(String::new())), SwitchAction::Finish(Err("生成运行态配置失败: bad yaml".into())));

    let (mut n, _) = ProfileSwitch::start("b".into(), None);
    n.step = SwitchStep::Applying;
    assert_eq!(n.advance(Err("refused".into())), SwitchAction::Finish(Err("应用配置失败: refused".into())));

    let (mut m, _) = ProfileSwitch::start("b".into(), Some("a".into()));
    assert_eq!(m.advance(Err("down".into())), SwitchAction::Finish(Err("标记 current 失败: down".into())));

    let (mut k, _) = ProfileSwitch::start("b".into(), Some("a".into()));
    k.step = SwitchStep::Starting;
    assert_eq!(k.advance(Err("boom".into())), SwitchAction::SetCurrent("a".into()));
    assert_eq!(k.advance(Err("ignored".into())), SwitchAction::Finish(Err("启动核心失败: boom".into())));
}

#[test]
fn subscription_refresh_steps() {
    let (mut u, first) = ProfileUpdate::start("p1".into());
    assert_eq!(first, UpdateAction::GetProfile("p1".into()));
    assert_eq!(u.advance(UpdateEvent::Downloaded("x".into())), UpdateAction::Idle);
    assert_eq!(
        u.advance(UpdateEvent::Profile { url: "https://sub.example".into(), interval: 3600 }),
        UpdateAction::Download("https://sub.example".into())
    );
    assert_eq!(u.advance(UpdateEvent::Downloaded("raw".into())), UpdateAction::Convert("raw".into()));
    assert_eq!(
        u.advance(UpdateEvent::Converted("yaml".into())),
        UpdateAction::Import { url: "https://sub.example".into(), interval: 3600, yaml: "yaml".into() }
    );
    assert_eq!(
        u.advance(UpdateEvent::Imported { uid: "p1".into(), updated: true }),
        UpdateAction::Finish(Ok("profile updated: p1".into()))
    );
    assert_eq!(u.step, UpdateStep::Finished);
}

#[test]
fn subscription_refresh_failures() {
    let (mut u, _) = ProfileUpdate::start("p1".into());
    u.advance(UpdateEvent::Profile { url: "u".into(), interval: 0 });
    assert_eq!(u.advance(UpdateEvent::Failed("timeout".into())), UpdateAction::Finish(Err("download failed: timeout".into())));
    let (mut v, _) = ProfileUpdate::start("p1".into());
    v.advance(UpdateEvent::Profile { url: "u".into(), interval: 0 });
    v.advance(UpdateEvent::Downloaded("raw".into()));
    assert_eq!(v.advance(UpdateEvent::Failed("bad".into())), UpdateAction::Finish(Err("parse failed: bad".into())));
    let (mut w, _) = ProfileUpdate::start("p1".into());
    assert_eq!(w.advance(UpdateEvent::Failed("no such profile".into())), UpdateAction::Finish(Err("no such profile".into())));
    let (mut x, _) = ProfileUpdate::start("p2".into());
    x.step = UpdateStep::Importing;
    assert_eq!(
        x.advance(UpdateEvent::Imported { uid: "p9".into(), updated: false }),
        UpdateAction::Finish(Ok("profile imported: p9".into()))
    );
}
