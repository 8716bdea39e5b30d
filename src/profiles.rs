//! Fingerprint profiles: the operating system and GPU presets, the profile
//! value and its builder.

use vstd::prelude::*;
use crate::text::{contains, decimal, lemma_contains_extend, lemma_contains_self, push_decimal};

verus! {

/// GPU presets for WebGL spoofing.
#[derive(Debug, Clone, Copy, PartialEq, Eq, Structural)]
pub enum Gpu {
    /// NVIDIA GeForce RTX 3080 (high-trust gaming GPU)
    NvidiaRTX3080,
    /// NVIDIA GeForce RTX 4080 (newer gaming GPU)
    NvidiaRTX4080,
    /// NVIDIA GeForce GTX 1660 (mid-range GPU)
    NvidiaGTX1660,
    /// Intel UHD Graphics 630 (common laptop GPU)
    IntelUHD630,
    /// Intel Iris Xe (modern laptop GPU)
    IntelIrisXe,
    /// Apple M1 Pro
    AppleM1Pro,
    /// Apple M2 Max
    AppleM2Max,
    /// Apple M4 Max
    AppleM4Max,
    /// AMD Radeon RX 6800
    AmdRadeonRX6800,
}

/// The WebGL vendor string of a GPU preset.
pub open spec fn gpu_vendor(g: Gpu) -> Seq<char> {
    match g {
        Gpu::NvidiaRTX3080 | Gpu::NvidiaRTX4080 | Gpu::NvidiaGTX1660 => "Google Inc. (NVIDIA)"@,
        Gpu::IntelUHD630 | Gpu::IntelIrisXe => "Google Inc. (Intel)"@,
        Gpu::AppleM1Pro | Gpu::AppleM2Max | Gpu::AppleM4Max => "Google Inc. (Apple)"@,
        Gpu::AmdRadeonRX6800 => "Google Inc. (AMD)"@,
    }
}

/// The WebGL renderer string of a GPU preset.
pub open spec fn gpu_renderer(g: Gpu) -> Seq<char> {
    match g {
        Gpu::NvidiaRTX3080 => "ANGLE (NVIDIA, NVIDIA GeForce RTX 3080 Direct3D11 vs_5_0 ps_5_0)"@,
        Gpu::NvidiaRTX4080 => "ANGLE (NVIDIA, NVIDIA GeForce RTX 4080 Direct3D11 vs_5_0 ps_5_0)"@,
        Gpu::NvidiaGTX1660 => "ANGLE (NVIDIA, NVIDIA GeForce GTX 1660 SUPER Direct3D11 vs_5_0 ps_5_0)"@,
        Gpu::IntelUHD630 => "ANGLE (Intel, Intel(R) UHD Graphics 630 Direct3D11 vs_5_0 ps_5_0)"@,
        Gpu::IntelIrisXe => "ANGLE (Intel, Intel(R) Iris(R) Xe Graphics Direct3D11 vs_5_0 ps_5_0)"@,
        Gpu::AppleM1Pro => "ANGLE (Apple, Apple M1 Pro, OpenGL 4.1)"@,
        Gpu::AppleM2Max => "ANGLE (Apple, Apple M2 Max, OpenGL 4.1)"@,
        Gpu::AppleM4Max => "ANGLE (Apple, ANGLE Metal Renderer: Apple M4 Max, Unspecified Version)"@,
        Gpu::AmdRadeonRX6800 => "ANGLE (AMD, AMD Radeon RX 6800 XT Direct3D11 vs_5_0 ps_5_0)"@,
    }
}

impl Gpu {
    /// Returns the WebGL vendor string.
    pub fn vendor(&self) -> (r: &'static str)
        ensures
            r@ == gpu_vendor(*self),
    {
        match self {
            Gpu::NvidiaRTX3080 | Gpu::NvidiaRTX4080 | Gpu::NvidiaGTX1660 => "Google Inc. (NVIDIA)",
            Gpu::IntelUHD630 | Gpu::IntelIrisXe => "Google Inc. (Intel)",
            Gpu::AppleM1Pro | Gpu::AppleM2Max | Gpu::AppleM4Max => "Google Inc. (Apple)",
            Gpu::AmdRadeonRX6800 => "Google Inc. (AMD)",
        }
    }

    /// Returns the WebGL renderer string.
    pub fn renderer(&self) -> (r: &'static str)
        ensures
            r@ == gpu_renderer(*self),
    {
        match self {
            Gpu::NvidiaRTX3080 => "ANGLE (NVIDIA, NVIDIA GeForce RTX 3080 Direct3D11 vs_5_0 ps_5_0)",
            Gpu::NvidiaRTX4080 => "ANGLE (NVIDIA, NVIDIA GeForce RTX 4080 Direct3D11 vs_5_0 ps_5_0)",
            Gpu::NvidiaGTX1660 => "ANGLE (NVIDIA, NVIDIA GeForce GTX 1660 SUPER Direct3D11 vs_5_0 ps_5_0)",
            Gpu::IntelUHD630 => "ANGLE (Intel, Intel(R) UHD Graphics 630 Direct3D11 vs_5_0 ps_5_0)",
            Gpu::IntelIrisXe => "ANGLE (Intel, Intel(R) Iris(R) Xe Graphics Direct3D11 vs_5_0 ps_5_0)",
            Gpu::AppleM1Pro => "ANGLE (Apple, Apple M1 Pro, OpenGL 4.1)",
            Gpu::AppleM2Max => "ANGLE (Apple, Apple M2 Max, OpenGL 4.1)",
            Gpu::AppleM4Max => "ANGLE (Apple, ANGLE Metal Renderer: Apple M4 Max, Unspecified Version)",
            Gpu::AmdRadeonRX6800 => "ANGLE (AMD, AMD Radeon RX 6800 XT Direct3D11 vs_5_0 ps_5_0)",
        }
    }
}

/// Operating system presets.
#[derive(Debug, Clone, Copy, PartialEq, Eq, Structural)]
pub enum Os {
    /// Windows 10/11 64-bit
    Windows,
    /// macOS (Intel)
    MacOSIntel,
    /// macOS (Apple Silicon)
    MacOSArm,
    /// Linux x86_64
    Linux,
}

/// The `navigator.platform` value of an operating system.
pub open spec fn os_platform(os: Os) -> Seq<char> {
    match os {
        Os::Windows => "Win32"@,
        Os::MacOSIntel | Os::MacOSArm => "MacIntel"@,
        Os::Linux => "Linux x86_64"@,
    }
}

/// The client-hints platform name of an operating system.
pub open spec fn os_hints_platform(os: Os) -> Seq<char> {
    match os {
        Os::Windows => "Windows"@,
        Os::MacOSIntel | Os::MacOSArm => "macOS"@,
        Os::Linux => "Linux"@,
    }
}

impl Os {
    /// Returns the `navigator.platform` value.
    pub fn platform(&self) -> (r: &'static str)
        ensures
            r@ == os_platform(*self),
    {
        match self {
            Os::Windows => "Win32",
            Os::MacOSIntel | Os::MacOSArm => "MacIntel",
            Os::Linux => "Linux x86_64",
        }
    }

    /// Returns the client-hints platform name.
    pub fn hints_platform(&self) -> (r: &'static str)
        ensures
            r@ == os_hints_platform(*self),
    {
        match self {
            Os::Windows => "Windows",
            Os::MacOSIntel | Os::MacOSArm => "macOS",
            Os::Linux => "Linux",
        }
    }
}

/// Both platform strings of every operating system are non-empty, and the
/// two macOS presets present themselves alike: `MacIntel` to
/// `navigator.platform` and `macOS` to client hints.
pub proof fn lemma_platform_strings(os: Os)
    ensures
        os_platform(os).len() > 0,
        os_hints_platform(os).len() > 0,
        (os == Os::MacOSIntel || os == Os::MacOSArm) ==> os_platform(os) == "MacIntel"@
            && os_hints_platform(os) == "macOS"@,
{
    reveal_strlit("Win32");
    reveal_strlit("MacIntel");
    reveal_strlit("Linux x86_64");
    reveal_strlit("Windows");
    reveal_strlit("macOS");
    reveal_strlit("Linux");
}

/// The vendor family of a GPU preset.
pub open spec fn gpu_family(g: Gpu) -> Seq<char> {
    match g {
        Gpu::NvidiaRTX3080 | Gpu::NvidiaRTX4080 | Gpu::NvidiaGTX1660 => "NVIDIA"@,
        Gpu::IntelUHD630 | Gpu::IntelIrisXe => "Intel"@,
        Gpu::AppleM1Pro | Gpu::AppleM2Max | Gpu::AppleM4Max => "Apple"@,
        Gpu::AmdRadeonRX6800 => "AMD"@,
    }
}

/// Every GPU preset has a non-empty vendor and renderer string, and both
/// name the same vendor family: the vendor is `Google Inc. (<family>)` and
/// the renderer begins with `ANGLE (<family>, `.
pub proof fn lemma_gpu_strings(g: Gpu)
    ensures
        gpu_vendor(g).len() > 0,
        gpu_renderer(g).len() > 0,
        gpu_vendor(g) == "Google Inc. ("@ + gpu_family(g) + ")"@,
        gpu_renderer(g).len() >= 9 + gpu_family(g).len(),
        gpu_renderer(g).subrange(0, 9int + gpu_family(g).len()) == "ANGLE ("@ + gpu_family(g) + ", "@,
{
    reveal_strlit("NVIDIA");
    reveal_strlit("Intel");
    reveal_strlit("Apple");
    reveal_strlit("AMD");
    reveal_strlit("Google Inc. (");
    reveal_strlit(")");
    reveal_strlit("ANGLE (");
    reveal_strlit(", ");
    reveal_strlit("Google Inc. (NVIDIA)");
    reveal_strlit("Google Inc. (Intel)");
    reveal_strlit("Google Inc. (Apple)");
    reveal_strlit("Google Inc. (AMD)");
    reveal_strlit("ANGLE (NVIDIA, NVIDIA GeForce RTX 3080 Direct3D11 vs_5_0 ps_5_0)");
    reveal_strlit("ANGLE (NVIDIA, NVIDIA GeForce RTX 4080 Direct3D11 vs_5_0 ps_5_0)");
    reveal_strlit("ANGLE (NVIDIA, NVIDIA GeForce GTX 1660 SUPER Direct3D11 vs_5_0 ps_5_0)");
    reveal_strlit("ANGLE (Intel, Intel(R) UHD Graphics 630 Direct3D11 vs_5_0 ps_5_0)");
    reveal_strlit("ANGLE (Intel, Intel(R) Iris(R) Xe Graphics Direct3D11 vs_5_0 ps_5_0)");
    reveal_strlit("ANGLE (Apple, Apple M1 Pro, OpenGL 4.1)");
    reveal_strlit("ANGLE (Apple, Apple M2 Max, OpenGL 4.1)");
    reveal_strlit("ANGLE (Apple, ANGLE Metal Renderer: Apple M4 Max, Unspecified Version)");
    reveal_strlit("ANGLE (AMD, AMD Radeon RX 6800 XT Direct3D11 vs_5_0 ps_5_0)");
    assert(gpu_vendor(g) =~= "Google Inc. ("@ + gpu_family(g) + ")"@);
    assert(gpu_renderer(g).subrange(0, 9int + gpu_family(g).len()) =~= "ANGLE ("@ + gpu_family(g) + ", "@);
}


/// Everything a profile states, as plain values.
///
/// The pixel ratio is held in thousandths: `1000` is a ratio of 1, `2000`
/// a ratio of 2, `1250` a ratio of 1.25.
pub ghost struct ProfileModel {
    pub os: Os,
    pub chrome_version: u32,
    pub gpu: Gpu,
    pub memory_gb: u32,
    pub cpu_cores: u32,
    pub locale: Seq<char>,
    pub timezone: Seq<char>,
    pub screen_width: u32,
    pub screen_height: u32,
    pub pixel_ratio_milli: u32,
}

/// The settings a builder starts from for an operating system.
pub open spec fn default_profile(os: Os) -> ProfileModel {
    ProfileModel {
        os,
        chrome_version: 131,
        gpu: match os {
            Os::Windows => Gpu::NvidiaRTX3080,
            Os::MacOSIntel => Gpu::AppleM1Pro,
            Os::MacOSArm => Gpu::AppleM4Max,
            Os::Linux => Gpu::NvidiaGTX1660,
        },
        memory_gb: 8,
        cpu_cores: if os == Os::MacOSArm { 14 } else { 8 },
        locale: "en-US"@,
        timezone: "America/New_York"@,
        screen_width: match os {
            Os::Windows | Os::Linux => 1920,
            Os::MacOSIntel => 1440,
            Os::MacOSArm => 1728,
        },
        screen_height: match os {
            Os::Windows | Os::Linux => 1080,
            Os::MacOSIntel => 900,
            Os::MacOSArm => 1117,
        },
        pixel_ratio_milli: match os {
            Os::Windows | Os::Linux => 1000,
            Os::MacOSIntel | Os::MacOSArm => 2000,
        },
    }
}

/// The operating-system token inside the user-agent string.
pub open spec fn os_ua_token(os: Os) -> Seq<char> {
    match os {
        Os::Windows => "Windows NT 10.0; Win64; x64"@,
        Os::MacOSIntel | Os::MacOSArm => "Macintosh; Intel Mac OS X 10_15_7"@,
        Os::Linux => "X11; Linux x86_64"@,
    }
}

/// The user-agent string of an operating system and browser version.
pub open spec fn user_agent_text(os: Os, version: u32) -> Seq<char> {
    "Mozilla/5.0 ("@ + os_ua_token(os) + ") AppleWebKit/537.36 (KHTML, like Gecko) Chrome/"@
        + decimal(version as nat) + ".0.0.0 Safari/537.36"@
}

/// The launch flag that sets the window size.
pub open spec fn window_size_flag(width: u32, height: u32) -> Seq<char> {
    "--window-size="@ + decimal(width as nat) + ","@ + decimal(height as nat)
}

/// The launch settings that a profile adjusts: the window size and the
/// command-line flags handed to the browser.
#[derive(Debug, Clone)]
pub struct LaunchConfig {
    window_size: Option<(u32, u32)>,
    args: Vec<String>,
}

impl View for LaunchConfig {
    type V = (Option<(u32, u32)>, Seq<Seq<char>>);

    closed spec fn view(&self) -> (Option<(u32, u32)>, Seq<Seq<char>>) {
        (self.window_size, self.args@.map_values(|a: String| a@))
    }
}

impl LaunchConfig {
    /// No window size and no flags.
    pub fn new() -> (r: Self)
        ensures
            r@ == (None::<(u32, u32)>, Seq::<Seq<char>>::empty()),
    {
        let r = LaunchConfig { window_size: None, args: Vec::new() };
        assert(r@.1 =~= Seq::<Seq<char>>::empty());
        r
    }

    /// Sets the window size.
    pub fn window_size(self, width: u32, height: u32) -> (r: Self)
        ensures
            r@ == (Some((width, height)), self@.1),
    {
        let mut b = self;
        b.window_size = Some((width, height));
        b
    }

    /// Appends flags after those already there.
    pub fn args(self, extra: Vec<String>) -> (r: Self)
        ensures
            r@ == (self@.0, self@.1 + extra@.map_values(|a: String| a@)),
    {
        let mut b = self;
        let ghost start = b.args@;
        let mut i: usize = 0;
        while i < extra.len()
            invariant
                i <= extra.len(),
                b.window_size == self.window_size,
                b.args@.map_values(|a: String| a@) =~= start.map_values(|a: String| a@)
                    + extra@.subrange(0, i as int).map_values(|a: String| a@),
            decreases extra.len() - i,
        {
            let a = extra[i].clone();
            let ghost prev = b.args@;
            b.args.push(a);
            assert(b.args@ == prev.push(a));
            assert(extra@.subrange(0, i + 1) =~= extra@.subrange(0, i as int).push(extra@[i as int]));
            assert(b.args@.map_values(|a: String| a@) =~= prev.map_values(|a: String| a@).push(a@));
            assert(extra@.subrange(0, i + 1).map_values(|a: String| a@) =~= extra@.subrange(0, i as int).map_values(|a: String| a@).push(a@));
            i = i + 1;
        }
        assert(extra@.subrange(0, extra.len() as int) =~= extra@);
        b
    }

    /// The window size, if one is set.
    pub fn window(&self) -> (r: Option<(u32, u32)>)
        ensures
            r == self@.0,
    {
        self.window_size
    }

    /// The flags, in order.
    pub fn launch_args(&self) -> (r: &Vec<String>)
        ensures
            r@.map_values(|a: String| a@) == self@.1,
    {
        &self.args
    }
}

/// A browser fingerprint profile: fixed once built.
#[derive(Debug, Clone)]
pub struct ChaserProfile {
    os: Os,
    chrome_version: u32,
    gpu: Gpu,
    memory_gb: u32,
    cpu_cores: u32,
    locale: String,
    timezone: String,
    screen_width: u32,
    screen_height: u32,
    pixel_ratio_milli: u32,
}

impl View for ChaserProfile {
    type V = ProfileModel;

    closed spec fn view(&self) -> ProfileModel {
        ProfileModel {
            os: self.os,
            chrome_version: self.chrome_version,
            gpu: self.gpu,
            memory_gb: self.memory_gb,
            cpu_cores: self.cpu_cores,
            locale: self.locale@,
            timezone: self.timezone@,
            screen_width: self.screen_width,
            screen_height: self.screen_height,
            pixel_ratio_milli: self.pixel_ratio_milli,
        }
    }
}

/// Builder for [`ChaserProfile`]: each setter replaces one setting.
#[derive(Debug, Clone)]
pub struct ChaserProfileBuilder {
    os: Os,
    chrome_version: u32,
    gpu: Gpu,
    memory_gb: u32,
    cpu_cores: u32,
    locale: String,
    timezone: String,
    screen_width: u32,
    screen_height: u32,
    pixel_ratio_milli: u32,
}

impl View for ChaserProfileBuilder {
    type V = ProfileModel;

    closed spec fn view(&self) -> ProfileModel {
        ProfileModel {
            os: self.os,
            chrome_version: self.chrome_version,
            gpu: self.gpu,
            memory_gb: self.memory_gb,
            cpu_cores: self.cpu_cores,
            locale: self.locale@,
            timezone: self.timezone@,
            screen_width: self.screen_width,
            screen_height: self.screen_height,
            pixel_ratio_milli: self.pixel_ratio_milli,
        }
    }
}

impl Default for ChaserProfile {
    /// The Windows preset.
    fn default() -> (r: Self)
        ensures
            r@ == default_profile(Os::Windows),
    {
        Self::windows().build()
    }
}

impl ChaserProfile {
    /// A builder seeded with the defaults of `os`: its screen geometry and
    /// pixel ratio, its GPU, 14 cores on Apple Silicon and 8 elsewhere,
    /// 8 GB of memory, `en-US`, `America/New_York` and browser version 131.
    #[allow(clippy::new_ret_no_self)]
    pub fn new(os: Os) -> (r: ChaserProfileBuilder)
        ensures
            r@ == default_profile(os),
    {
        let (screen_width, screen_height, pixel_ratio_milli, cpu_cores): (u32, u32, u32, u32) =
            match os {
            Os::Windows => (1920, 1080, 1000, 8),
            Os::MacOSIntel => (1440, 900, 2000, 8),
            Os::MacOSArm => (1728, 1117, 2000, 14),
            Os::Linux => (1920, 1080, 1000, 8),
        };
        let gpu = match os {
            Os::Windows => Gpu::NvidiaRTX3080,
            Os::MacOSIntel => Gpu::AppleM1Pro,
            Os::MacOSArm => Gpu::AppleM4Max,
            Os::Linux => Gpu::NvidiaGTX1660,
        };
        ChaserProfileBuilder {
            os,
            chrome_version: 131,
            gpu,
            memory_gb: 8,
            cpu_cores,
            locale: String::from_str("en-US"),
            timezone: String::from_str("America/New_York"),
            screen_width,
            screen_height,
            pixel_ratio_milli,
        }
    }

    /// The Windows preset (RTX 3080, 8 cores, 1920x1080).
    pub fn windows() -> (r: ChaserProfileBuilder)
        ensures
            r@ == default_profile(Os::Windows),
    {
        Self::new(Os::Windows)
    }

    /// The macOS Intel preset (M1 Pro GPU string, 8 cores, 1440x900 at ratio 2).
    pub fn macos_intel() -> (r: ChaserProfileBuilder)
        ensures
            r@ == default_profile(Os::MacOSIntel),
    {
        Self::new(Os::MacOSIntel)
    }

    /// The macOS Apple Silicon preset (M4 Max, 14 cores, 1728x1117 at ratio 2).
    pub fn macos_arm() -> (r: ChaserProfileBuilder)
        ensures
            r@ == default_profile(Os::MacOSArm),
    {
        Self::new(Os::MacOSArm)
    }

    /// The Linux preset (GTX 1660, 8 cores, 1920x1080).
    pub fn linux() -> (r: ChaserProfileBuilder)
        ensures
            r@ == default_profile(Os::Linux),
    {
        Self::new(Os::Linux)
    }

    pub fn os(&self) -> (r: Os)
        ensures
            r == self@.os,
    {
        self.os
    }

    pub fn chrome_version(&self) -> (r: u32)
        ensures
            r == self@.chrome_version,
    {
        self.chrome_version
    }

    pub fn gpu(&self) -> (r: Gpu)
        ensures
            r == self@.gpu,
    {
        self.gpu
    }

    pub fn memory_gb(&self) -> (r: u32)
        ensures
            r == self@.memory_gb,
    {
        self.memory_gb
    }

    pub fn cpu_cores(&self) -> (r: u32)
        ensures
            r == self@.cpu_cores,
    {
        self.cpu_cores
    }

    pub fn locale(&self) -> (r: &str)
        ensures
            r@ == self@.locale,
    {
        self.locale.as_str()
    }

    pub fn timezone(&self) -> (r: &str)
        ensures
            r@ == self@.timezone,
    {
        self.timezone.as_str()
    }

    pub fn screen_width(&self) -> (r: u32)
        ensures
            r == self@.screen_width,
    {
        self.screen_width
    }

    pub fn screen_height(&self) -> (r: u32)
        ensures
            r == self@.screen_height,
    {
        self.screen_height
    }

    /// The device pixel ratio in thousandths.
    pub fn device_pixel_ratio(&self) -> (r: u32)
        ensures
            r == self@.pixel_ratio_milli,
    {
        self.pixel_ratio_milli
    }

    /// Sets the window to the profile's screen size and appends the flags
    /// that hide automation: the `AutomationControlled` blink feature is
    /// disabled, the info bar is disabled, and the window size is repeated
    /// as a flag.
    pub fn configure_browser(&self, builder: LaunchConfig) -> (r: LaunchConfig)
        ensures
            r@ == (Some((self@.screen_width, self@.screen_height)), builder@.1 + seq![
                "--disable-blink-features=AutomationControlled"@,
                "--disable-infobars"@,
                window_size_flag(self@.screen_width, self@.screen_height),
            ]),
    {
        let mut size_flag = String::from_str("--window-size=");
        push_decimal(&mut size_flag, self.screen_width as u64);
        size_flag.append(",");
        push_decimal(&mut size_flag, self.screen_height as u64);
        let mut flags: Vec<String> = Vec::new();
        flags.push(String::from_str("--disable-blink-features=AutomationControlled"));
        flags.push(String::from_str("--disable-infobars"));
        flags.push(size_flag);
        let r = builder.window_size(self.screen_width, self.screen_height).args(flags);
        assert(r@.1 =~= builder@.1 + seq![
            "--disable-blink-features=AutomationControlled"@,
            "--disable-infobars"@,
            window_size_flag(self@.screen_width, self@.screen_height),
        ]);
        r
    }

    /// The user-agent string of this profile.
    pub fn user_agent(&self) -> (r: String)
        ensures
            r@ == user_agent_text(self@.os, self@.chrome_version),
    {
        let os_part = match self.os {
            Os::Windows => "Windows NT 10.0; Win64; x64",
            Os::MacOSIntel | Os::MacOSArm => "Macintosh; Intel Mac OS X 10_15_7",
            Os::Linux => "X11; Linux x86_64",
        };
        let mut r = String::from_str("Mozilla/5.0 (");
        r.append(os_part);
        r.append(") AppleWebKit/537.36 (KHTML, like Gecko) Chrome/");
        push_decimal(&mut r, self.chrome_version as u64);
        r.append(".0.0.0 Safari/537.36");
        r
    }
}

impl ChaserProfileBuilder {
    /// Sets the browser version.
    pub fn chrome_version(self, version: u32) -> (r: Self)
        ensures
            r@ == (ProfileModel { chrome_version: version, ..self@ }),
    {
        let mut b = self;
        b.chrome_version = version;
        b
    }

    /// Sets the GPU presented to WebGL.
    pub fn gpu(self, gpu: Gpu) -> (r: Self)
        ensures
            r@ == (ProfileModel { gpu, ..self@ }),
    {
        let mut b = self;
        b.gpu = gpu;
        b
    }

    /// Sets the device memory in GB; any value is accepted.
    pub fn memory_gb(self, gb: u32) -> (r: Self)
        ensures
            r@ == (ProfileModel { memory_gb: gb, ..self@ }),
    {
        let mut b = self;
        b.memory_gb = gb;
        b
    }

    /// Sets the CPU core count; any value is accepted.
    pub fn cpu_cores(self, cores: u32) -> (r: Self)
        ensures
            r@ == (ProfileModel { cpu_cores: cores, ..self@ }),
    {
        let mut b = self;
        b.cpu_cores = cores;
        b
    }

    /// Sets the locale (e.g. `en-US`, `de-DE`).
    pub fn locale(self, locale: &str) -> (r: Self)
        ensures
            r@ == (ProfileModel { locale: locale@, ..self@ }),
    {
        let mut b = self;
        b.locale = String::from_str(locale);
        b
    }

    /// Sets the time zone (e.g. `America/New_York`, `Europe/Berlin`).
    pub fn timezone(self, tz: &str) -> (r: Self)
        ensures
            r@ == (ProfileModel { timezone: tz@, ..self@ }),
    {
        let mut b = self;
        b.timezone = String::from_str(tz);
        b
    }

    /// Sets the screen resolution.
    pub fn screen(self, width: u32, height: u32) -> (r: Self)
        ensures
            r@ == (ProfileModel { screen_width: width, screen_height: height, ..self@ }),
    {
        let mut b = self;
        b.screen_width = width;
        b.screen_height = height;
        b
    }

    /// Sets the device pixel ratio in thousandths (`1000` for standard
    /// displays, `2000` for HiDPI ones).
    pub fn device_pixel_ratio(self, ratio_milli: u32) -> (r: Self)
        ensures
            r@ == (ProfileModel { pixel_ratio_milli: ratio_milli, ..self@ }),
    {
        let mut b = self;
        b.pixel_ratio_milli = ratio_milli;
        b
    }

    /// Freezes the settings into a profile; no value is rejected.
    pub fn build(self) -> (r: ChaserProfile)
        ensures
            r@ == self@,
    {
        ChaserProfile {
            os: self.os,
            chrome_version: self.chrome_version,
            gpu: self.gpu,
            memory_gb: self.memory_gb,
            cpu_cores: self.cpu_cores,
            locale: self.locale,
            timezone: self.timezone,
            screen_width: self.screen_width,
            screen_height: self.screen_height,
            pixel_ratio_milli: self.pixel_ratio_milli,
        }
    }
}

/// The name of an operating-system preset.
pub open spec fn os_name(os: Os) -> Seq<char> {
    match os {
        Os::Windows => "Windows"@,
        Os::MacOSIntel => "MacOSIntel"@,
        Os::MacOSArm => "MacOSArm"@,
        Os::Linux => "Linux"@,
    }
}

/// The name of a GPU preset.
pub open spec fn gpu_name(g: Gpu) -> Seq<char> {
    match g {
        Gpu::NvidiaRTX3080 => "NvidiaRTX3080"@,
        Gpu::NvidiaRTX4080 => "NvidiaRTX4080"@,
        Gpu::NvidiaGTX1660 => "NvidiaGTX1660"@,
        Gpu::IntelUHD630 => "IntelUHD630"@,
        Gpu::IntelIrisXe => "IntelIrisXe"@,
        Gpu::AppleM1Pro => "AppleM1Pro"@,
        Gpu::AppleM2Max => "AppleM2Max"@,
        Gpu::AppleM4Max => "AppleM4Max"@,
        Gpu::AmdRadeonRX6800 => "AmdRadeonRX6800"@,
    }
}

/// The one-line description of a profile.
pub open spec fn summary_text(p: ProfileModel) -> Seq<char> {
    "ChaserProfile("@ + os_name(p.os) + ", Chrome "@ + decimal(p.chrome_version as nat) + ", "@
        + gpu_name(p.gpu) + ")"@
}

impl Os {
    fn name(&self) -> (r: &'static str)
        ensures
            r@ == os_name(*self),
    {
        match self {
            Os::Windows => "Windows",
            Os::MacOSIntel => "MacOSIntel",
            Os::MacOSArm => "MacOSArm",
            Os::Linux => "Linux",
        }
    }
}

impl Gpu {
    fn name(&self) -> (r: &'static str)
        ensures
            r@ == gpu_name(*self),
    {
        match self {
            Gpu::NvidiaRTX3080 => "NvidiaRTX3080",
            Gpu::NvidiaRTX4080 => "NvidiaRTX4080",
            Gpu::NvidiaGTX1660 => "NvidiaGTX1660",
            Gpu::IntelUHD630 => "IntelUHD630",
            Gpu::IntelIrisXe => "IntelIrisXe",
            Gpu::AppleM1Pro => "AppleM1Pro",
            Gpu::AppleM2Max => "AppleM2Max",
            Gpu::AppleM4Max => "AppleM4Max",
            Gpu::AmdRadeonRX6800 => "AmdRadeonRX6800",
        }
    }
}

impl ChaserProfile {
    /// A one-line description: the operating system, the browser version
    /// and the GPU, as in `ChaserProfile(Windows, Chrome 131, NvidiaRTX3080)`.
    pub fn summary(&self) -> (r: String)
        ensures
            r@ == summary_text(self@),
    {
        let mut r = String::from_str("ChaserProfile(");
        r.append(self.os.name());
        r.append(", Chrome ");
        push_decimal(&mut r, self.chrome_version as u64);
        r.append(", ");
        r.append(self.gpu.name());
        r.append(")");
        r
    }
}

/// The user agent carries the browser version as a decimal number and the
/// token of the profile's operating system.
pub proof fn lemma_user_agent_carries_profile(os: Os, version: u32)
    ensures
        contains(user_agent_text(os, version), decimal(version as nat)),
        contains(user_agent_text(os, version), os_ua_token(os)),
{
    let a = "Mozilla/5.0 ("@;
    let b = ") AppleWebKit/537.36 (KHTML, like Gecko) Chrome/"@;
    let c = ".0.0.0 Safari/537.36"@;
    let t = os_ua_token(os);
    let d = decimal(version as nat);
    lemma_contains_self(d);
    lemma_contains_extend(d, d, a + t + b, c);
    assert(a + t + b + d + c =~= user_agent_text(os, version));
    lemma_contains_self(t);
    lemma_contains_extend(t, t, a, b + d + c);
    assert(a + t + (b + d + c) =~= user_agent_text(os, version));
}

} // verus!
