use chaser_oxide::profiles::{ChaserProfile, Gpu, LaunchConfig, Os};
use chaser_oxide::script::{extract_cores, SCRIPT_HEAD};

const ALL_GPUS: [Gpu; 9] = [
    Gpu::NvidiaRTX3080,
    Gpu::NvidiaRTX4080,
    Gpu::NvidiaGTX1660,
    Gpu::IntelUHD630,
    Gpu::IntelIrisXe,
    Gpu::AppleM1Pro,
    Gpu::AppleM2Max,
    Gpu::AppleM4Max,
    Gpu::AmdRadeonRX6800,
];

const ALL_OS: [Os; 4] = [Os::Windows, Os::MacOSIntel, Os::MacOSArm, Os::Linux];

#[test]
fn platform_strings_are_fixed_and_consistent() {
    for os in ALL_OS {
        assert!(!os.platform().is_empty());
        assert!(!os.hints_platform().is_empty());
        assert_eq!(os.platform(), os.platform());
    }
    assert_eq!(Os::Windows.platform(), "Win32");
    assert_eq!(Os::Windows.hints_platform(), "Windows");
    assert_eq!(Os::MacOSIntel.platform(), "MacIntel");
    assert_eq!(Os::MacOSArm.platform(), "MacIntel");
    assert_eq!(Os::MacOSIntel.hints_platform(), "macOS");
    assert_eq!(Os::MacOSArm.hints_platform(), "macOS");
    assert_eq!(Os::Linux.platform(), "Linux x86_64");
    assert_eq!(Os::Linux.hints_platform(), "Linux");
}

#[test]
fn gpu_strings_pair_up() {
    for gpu in ALL_GPUS {
        assert!(!gpu.vendor().is_empty());
        assert!(!gpu.renderer().is_empty());
        assert_eq!(gpu.vendor(), gpu.vendor());
        assert_eq!(gpu.renderer(), gpu.renderer());
        let family = gpu.vendor().trim_start_matches("Google Inc. (").trim_end_matches(')');
        assert!(gpu.renderer().starts_with(&format!("ANGLE ({}, ", family)));
    }
    assert_eq!(Gpu::NvidiaRTX3080.vendor(), "Google Inc. (NVIDIA)");
    assert_eq!(
        Gpu::NvidiaRTX3080.renderer(),
        "ANGLE (NVIDIA, NVIDIA GeForce RTX 3080 Direct3D11 vs_5_0 ps_5_0)"
    );
    assert_eq!(Gpu::IntelIrisXe.vendor(), "Google Inc. (Intel)");
    assert_eq!(Gpu::AppleM4Max.vendor(), "Google Inc. (Apple)");
    assert_eq!(
        Gpu::AppleM4Max.renderer(),
        "ANGLE (Apple, ANGLE Metal Renderer: Apple M4 Max, Unspecified Version)"
    );
    assert_eq!(Gpu::AmdRadeonRX6800.vendor(), "Google Inc. (AMD)");
}

#[test]
fn preset_core_counts_and_screen() {
    assert_eq!(ChaserProfile::windows().build().cpu_cores(), 8);
    assert_eq!(ChaserProfile::macos_arm().build().cpu_cores(), 14);
    assert_eq!(ChaserProfile::macos_arm().build().screen_width(), 1728);
}

#[test]
fn presets_seed_os_defaults() {
    let w = ChaserProfile::windows().build();
    assert_eq!(w.os(), Os::Windows);
    assert_eq!(w.gpu(), Gpu::NvidiaRTX3080);
    assert_eq!((w.screen_width(), w.screen_height(), w.device_pixel_ratio()), (1920, 1080, 1000));
    assert_eq!(w.chrome_version(), 131);
    assert_eq!(w.memory_gb(), 8);
    assert_eq!(w.locale(), "en-US");
    assert_eq!(w.timezone(), "America/New_York");

    let mi = ChaserProfile::macos_intel().build();
    assert_eq!(mi.gpu(), Gpu::AppleM1Pro);
    assert_eq!((mi.screen_width(), mi.screen_height(), mi.device_pixel_ratio()), (1440, 900, 2000));
    assert_eq!(mi.cpu_cores(), 8);

    let ma = ChaserProfile::macos_arm().build();
    assert_eq!(ma.gpu(), Gpu::AppleM4Max);
    assert_eq!((ma.screen_width(), ma.screen_height(), ma.device_pixel_ratio()), (1728, 1117, 2000));

    let l = ChaserProfile::linux().build();
    assert_eq!(l.gpu(), Gpu::NvidiaGTX1660);
    assert_eq!((l.screen_width(), l.screen_height(), l.device_pixel_ratio()), (1920, 1080, 1000));
    assert_eq!(l.cpu_cores(), 8);

    let d = ChaserProfile::default();
    assert_eq!(d.os(), Os::Windows);
    assert_eq!(d.cpu_cores(), 8);
}

#[test]
fn builder_setters_replace_one_setting_each() {
    let p = ChaserProfile::new(Os::Windows)
        .chrome_version(130)
        .gpu(Gpu::NvidiaRTX4080)
        .memory_gb(32)
        .cpu_cores(16)
        .locale("de-DE")
        .timezone("Europe/Berlin")
        .screen(2560, 1440)
        .device_pixel_ratio(1500)
        .build();
    assert_eq!(p.chrome_version(), 130);
    assert_eq!(p.gpu(), Gpu::NvidiaRTX4080);
    assert_eq!(p.memory_gb(), 32);
    assert_eq!(p.cpu_cores(), 16);
    assert_eq!(p.locale(), "de-DE");
    assert_eq!(p.timezone(), "Europe/Berlin");
    assert_eq!((p.screen_width(), p.screen_height()), (2560, 1440));
    assert_eq!(p.device_pixel_ratio(), 1500);
    assert_eq!(p.os(), Os::Windows);
}

#[test]
fn builder_accepts_zero_values() {
    let p = ChaserProfile::linux().cpu_cores(0).memory_gb(0).build();
    assert_eq!(p.cpu_cores(), 0);
    assert_eq!(p.memory_gb(), 0);
}

#[test]
fn user_agent_carries_version_and_os_token() {
    let linux = ChaserProfile::linux().chrome_version(128).build();
    let ua = linux.user_agent();
    assert!(ua.contains("X11; Linux x86_64"));
    assert!(ua.contains("128"));
    let windows = ChaserProfile::windows().build().user_agent();
    assert!(windows.contains("Windows NT 10.0; Win64; x64"));
    assert_eq!(
        windows,
        "Mozilla/5.0 (Windows NT 10.0; Win64; x64) AppleWebKit/537.36 (KHTML, like Gecko) Chrome/131.0.0.0 Safari/537.36"
    );
    let mac = ChaserProfile::macos_arm().chrome_version(7).build().user_agent();
    assert_eq!(
        mac,
        "Mozilla/5.0 (Macintosh; Intel Mac OS X 10_15_7) AppleWebKit/537.36 (KHTML, like Gecko) Chrome/7.0.0.0 Safari/537.36"
    );
}

#[test]
fn configure_browser_sets_window_and_appends_flags() {
    let p = ChaserProfile::windows().build();
    let base = LaunchConfig::new().args(vec!["--mute-audio".to_string()]);
    let c = p.configure_browser(base);
    assert_eq!(c.window(), Some((1920, 1080)));
    assert_eq!(
        c.launch_args(),
        &vec![
            "--mute-audio".to_string(),
            "--disable-blink-features=AutomationControlled".to_string(),
            "--disable-infobars".to_string(),
            "--window-size=1920,1080".to_string(),
        ]
    );
    let mac = ChaserProfile::macos_intel().build().configure_browser(LaunchConfig::new());
    assert_eq!(mac.window(), Some((1440, 900)));
    assert_eq!(mac.launch_args()[2], "--window-size=1440,900");
}

#[test]
fn bootstrap_script_carries_profile_values() {
    let p = ChaserProfile::windows()
        .cpu_cores(12)
        .memory_gb(16)
        .gpu(Gpu::IntelUHD630)
        .locale("fr-FR")
        .timezone("Europe/Paris")
        .build();
    let s = p.bootstrap_script();
    assert!(s.starts_with(SCRIPT_HEAD));
    assert!(s.contains("const hardwareConcurrency = 12;"));
    assert!(s.contains("const deviceMemory = 16;"));
    assert!(s.contains("const pixelRatio = 1;"));
    assert!(s.contains("const screenWidth = 1920;"));
    assert!(s.contains("const screenHeight = 1080;"));
    assert!(s.contains("const platform = 'Win32';"));
    assert!(s.contains("const hintsPlatform = 'Windows';"));
    assert!(s.contains("const chromeVersion = '131';"));
    assert!(s.contains("Google Inc. (Intel)"));
    assert!(s.contains("ANGLE (Intel, Intel(R) UHD Graphics 630 Direct3D11 vs_5_0 ps_5_0)"));
    assert!(s.contains("const locale = 'fr-FR';"));
    assert!(s.contains("const timeZone = 'Europe/Paris';"));
    assert!(s.contains(&p.user_agent()));
    assert!(s.contains("37445"));
    assert!(s.contains("37446"));
    assert!(!s.contains("{cores}"));
}

#[test]
fn bootstrap_script_writes_pixel_ratio_as_shortest_decimal() {
    let ratio = |milli: u32| {
        let s = ChaserProfile::linux().device_pixel_ratio(milli).build().bootstrap_script();
        let start = s.find("const pixelRatio = ").unwrap() + "const pixelRatio = ".len();
        let end = start + s[start..].find(';').unwrap();
        s[start..end].to_string()
    };
    assert_eq!(ratio(1000), "1");
    assert_eq!(ratio(2000), "2");
    assert_eq!(ratio(1500), "1.5");
    assert_eq!(ratio(1250), "1.25");
    assert_eq!(ratio(2625), "2.625");
    assert_eq!(ratio(500), "0.5");
    assert_eq!(ratio(1010), "1.01");
    assert_eq!(ratio(0), "0");
}

#[test]
fn cores_round_trip_through_the_script() {
    for cores in [0u32, 1, 8, 14, 64, 4294967295] {
        let p = ChaserProfile::macos_arm().cpu_cores(cores).build();
        assert_eq!(extract_cores(&p.bootstrap_script()), Some(cores));
    }
}

#[test]
fn extract_cores_rejects_other_texts() {
    assert_eq!(extract_cores(""), None);
    assert_eq!(extract_cores("(function() {})();"), None);
    let no_digits = format!("{}x;", SCRIPT_HEAD);
    assert_eq!(extract_cores(&no_digits), None);
    let too_big = format!("{}4294967296;", SCRIPT_HEAD);
    assert_eq!(extract_cores(&too_big), None);
    let fits = format!("{}42", SCRIPT_HEAD);
    assert_eq!(extract_cores(&fits), Some(42));
}

#[test]
fn summary_names_os_version_and_gpu() {
    assert_eq!(
        ChaserProfile::windows().build().summary(),
        "ChaserProfile(Windows, Chrome 131, NvidiaRTX3080)"
    );
    assert_eq!(
        ChaserProfile::macos_arm().chrome_version(130).gpu(Gpu::AppleM2Max).build().summary(),
        "ChaserProfile(MacOSArm, Chrome 130, AppleM2Max)"
    );
}
