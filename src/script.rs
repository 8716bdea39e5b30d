//! The bootstrap script: a self-contained script, run before any page
//! script on every new document, that makes the page's environment present
//! the profile's hardware, operating system, GPU and locale.
//!
//! The profile's values are written once, as constants at the head of the
//! script; the fixed body after them reads only those constants.

use vstd::prelude::*;
use crate::profiles::{gpu_renderer, gpu_vendor, os_hints_platform, os_platform, user_agent_text, ChaserProfile, ProfileModel};
use crate::text::{all_digits, contains, decimal, digit_char, digits_value, leading_digits, lemma_decimal_digits, lemma_digits_value_grows, lemma_leading_digits_stop, lemma_contains_in_left, lemma_contains_in_right, lemma_contains_self, push_decimal};

verus! {

/// The opening of every bootstrap script, up to the core count.
pub const SCRIPT_HEAD: &'static str = "(function() {\n    // ========== PROFILE VALUES ==========\n    const hardwareConcurrency = ";

pub const MEMORY_LINE: &'static str = "\n    const deviceMemory = ";
pub const RATIO_LINE: &'static str = ";\n    const pixelRatio = ";
pub const WIDTH_LINE: &'static str = ";\n    const screenWidth = ";
pub const HEIGHT_LINE: &'static str = ";\n    const screenHeight = ";
pub const PLATFORM_LINE: &'static str = ";\n    const platform = '";
pub const HINTS_LINE: &'static str = "';\n    const hintsPlatform = '";
pub const VERSION_LINE: &'static str = "';\n    const chromeVersion = '";
pub const VENDOR_LINE: &'static str = "';\n    const webglVendor = '";
pub const RENDERER_LINE: &'static str = "';\n    const webglRenderer = '";
pub const LOCALE_LINE: &'static str = "';\n    const locale = '";
pub const TIMEZONE_LINE: &'static str = "';\n    const timeZone = '";
pub const AGENT_LINE: &'static str = "';\n    // User agent: ";

/// The fixed part of the script, which reads the constants above.
pub const SCRIPT_BODY: &'static str = r#"

    // ========== HELPER: make functions appear native ==========
    // The replacement toString is itself given a native-looking toString,
    // so that func.toString.toString() reveals nothing either.
    const makeNative = (func, name) => {
        Object.defineProperty(func, 'name', { value: name });
        const nativeStr = `function ${name}() { [native code] }`;
        const newToString = function() { return nativeStr; };
        Object.defineProperty(newToString, 'toString', {
            value: function() { return "function toString() { [native code] }"; }
        });
        Object.defineProperty(newToString, 'name', { value: 'toString' });
        Object.defineProperty(func, 'toString', {
            value: newToString,
            writable: true, enumerable: false, configurable: true
        });
        return func;
    };

    // ========== AUTOMATION MARKER CLEANUP ==========
    const cleanMarkers = () => {
        for (const prop of Object.keys(window)) {
            if (prop.match(/^cdc_|^\$cdc_|^__webdriver|^__selenium|^__driver/)) {
                try { delete window[prop]; } catch(e) {}
            }
        }
        for (const prop of Object.keys(document)) {
            if (prop.match(/^\$cdc_|^__webdriver|^__selenium|^__driver|^\$chrome_/)) {
                try { delete document[prop]; } catch(e) {}
            }
        }
    };
    cleanMarkers();
    // The sweep lives as long as this document: a new document runs a new
    // copy of this script and the old interval goes with the old document.
    setInterval(cleanMarkers, 100);

    const navProto = Object.getPrototypeOf(navigator);
    const defineGetter = (target, prop, value, enumerable) => {
        Object.defineProperty(target, prop, {
            get: makeNative(function() { return value; }, 'get ' + prop),
            configurable: true, enumerable: enumerable
        });
    };

    // ========== 1. PLATFORM & HARDWARE ==========
    defineGetter(navProto, 'platform', platform, true);
    defineGetter(navProto, 'hardwareConcurrency', hardwareConcurrency, true);
    defineGetter(navProto, 'deviceMemory', deviceMemory, true);
    defineGetter(navProto, 'maxTouchPoints', 0, true);

    // ========== 2. SCREEN & DPR ==========
    defineGetter(window, 'devicePixelRatio', pixelRatio, true);
    defineGetter(screen, 'width', screenWidth, false);
    defineGetter(screen, 'height', screenHeight, false);
    defineGetter(screen, 'availWidth', screenWidth, false);
    defineGetter(screen, 'availHeight', screenHeight, false);
    // The outer window is as wide as the screen and taller than the
    // viewport by the browser's own toolbars.
    defineGetter(window, 'outerWidth', screenWidth, false);
    defineGetter(window, 'outerHeight', screenHeight + 85, false);

    // ========== 3. WEBGL ==========
    const spoofWebGL = (proto) => {
        const nativeGetParameter = proto.getParameter;
        proto.getParameter = makeNative(function(parameter) {
            try {
                if (parameter === 37445) return webglVendor;
                if (parameter === 37446) return webglRenderer;
                return nativeGetParameter.apply(this, arguments);
            } catch(e) {
                if (e && e.stack) {
                    e.stack = e.stack.split('\n').filter(line =>
                        !line.includes('Object.apply') && !line.includes('<anonymous>')
                    ).join('\n');
                }
                throw e;
            }
        }, 'getParameter');
    };
    try {
        spoofWebGL(WebGLRenderingContext.prototype);
        if (typeof WebGL2RenderingContext !== 'undefined') {
            spoofWebGL(WebGL2RenderingContext.prototype);
        }
    } catch(e) {}

    // ========== 4. CLIENT HINTS (userAgentData) ==========
    const brands = () => [
        { brand: "Google Chrome", version: chromeVersion },
        { brand: "Chromium", version: chromeVersion },
        { brand: "Not=A?Brand", version: "24" }
    ];
    const fullVersionList = () => [
        { brand: "Google Chrome", version: chromeVersion + ".0.0.0" },
        { brand: "Chromium", version: chromeVersion + ".0.0.0" },
        { brand: "Not=A?Brand", version: "24.0.0.0" }
    ];
    Object.defineProperty(navProto, 'userAgentData', {
        get: makeNative(function() {
            return {
                brands: brands(),
                mobile: false,
                platform: hintsPlatform,
                getHighEntropyValues: makeNative(async function(hints) {
                    return {
                        architecture: "x86",
                        bitness: "64",
                        brands: brands(),
                        fullVersionList: fullVersionList(),
                        mobile: false,
                        model: "",
                        platform: hintsPlatform,
                        platformVersion: "10.0.0",
                        uaFullVersion: chromeVersion + ".0.0.0"
                    };
                }, 'getHighEntropyValues'),
                toJSON: makeNative(function() {
                    return { brands: brands(), mobile: false, platform: hintsPlatform };
                }, 'toJSON')
            };
        }, 'get userAgentData'),
        configurable: true, enumerable: true
    });

    // ========== 5. VIDEO CODECS ==========
    const nativeCanPlayType = HTMLMediaElement.prototype.canPlayType;
    HTMLMediaElement.prototype.canPlayType = makeNative(function(type) {
        if (!type) return nativeCanPlayType.apply(this, arguments);
        if (type.includes('avc1') || type.includes('mp4a.40') || type === 'video/mp4' || type === 'audio/mp4') {
            return 'probably';
        }
        return nativeCanPlayType.apply(this, arguments);
    }, 'canPlayType');

    // ========== 6. WEBDRIVER ==========
    // Deleted, not redefined: a redefined property has a telltale descriptor.
    try { delete Object.getPrototypeOf(navigator).webdriver; } catch(e) {}

    // ========== 7. TIMEZONE & LOCALE ==========
    defineGetter(navProto, 'language', locale, true);
    Object.defineProperty(navProto, 'languages', {
        get: makeNative(function() { return [locale, 'en']; }, 'get languages'),
        configurable: true, enumerable: true
    });
    const NativeDateTimeFormat = Intl.DateTimeFormat;
    Intl.DateTimeFormat = makeNative(function(locales, options) {
        const opts = options || {};
        if (!opts.timeZone) opts.timeZone = timeZone;
        const formatter = new NativeDateTimeFormat(locales || locale, opts);
        const origResolved = formatter.resolvedOptions.bind(formatter);
        formatter.resolvedOptions = makeNative(function() {
            const result = origResolved();
            result.timeZone = timeZone;
            result.locale = locale;
            return result;
        }, 'resolvedOptions');
        return formatter;
    }, 'DateTimeFormat');
    Intl.DateTimeFormat.prototype = NativeDateTimeFormat.prototype;
    Intl.DateTimeFormat.supportedLocalesOf = NativeDateTimeFormat.supportedLocalesOf;

    // ========== 8. WINDOW.CHROME ==========
    const defineFixed = (target, prop, value) => {
        Object.defineProperty(target, prop, {
            configurable: false, enumerable: true, writable: true, value: value
        });
    };
    const noop = function() {};
    const port = () => ({
        addListener: noop, removeListener: noop, hasListener: noop,
        hasListeners: noop, dispatch: noop
    });
    if (!window.chrome) defineFixed(window, 'chrome', {});
    if (!window.chrome.runtime) defineFixed(window.chrome, 'runtime', {});
    if (!window.chrome.runtime.connect) {
        defineFixed(window.chrome.runtime, 'connect', makeNative(function() {
            return {
                name: '',
                onDisconnect: port(),
                onMessage: port(),
                postMessage: noop,
                disconnect: noop
            };
        }, 'connect'));
    }
    if (!window.chrome.runtime.sendMessage) {
        defineFixed(window.chrome.runtime, 'sendMessage', makeNative(function() { return; }, 'sendMessage'));
    }
    if (!window.chrome.csi) {
        defineFixed(window.chrome, 'csi', makeNative(function() {
            return { startE: Date.now(), onloadT: Date.now(), pageT: Date.now(), tran: 15 };
        }, 'csi'));
    }
    if (!window.chrome.loadTimes) {
        defineFixed(window.chrome, 'loadTimes', makeNative(function() {
            const now = Date.now() / 1000;
            return {
                requestTime: now, startLoadTime: now, commitLoadTime: now,
                finishDocumentLoadTime: now, finishLoadTime: now, firstPaintTime: now,
                firstPaintAfterLoadTime: 0, navigationType: "Other",
                wasFetchedViaSpdy: false, wasNpnNegotiated: false,
                npnNegotiatedProtocol: "", wasAlternateProtocolAvailable: false,
                connectionInfo: "http/1.1"
            };
        }, 'loadTimes'));
    }
    if (!window.chrome.app) {
        defineFixed(window.chrome, 'app', {
            isInstalled: false,
            InstallState: { DISABLED: 'disabled', INSTALLED: 'installed', NOT_INSTALLED: 'not_installed' },
            RunningState: { CANNOT_RUN: 'cannot_run', READY_TO_RUN: 'ready_to_run', RUNNING: 'running' },
            getIsInstalled: makeNative(function() { return false; }, 'getIsInstalled'),
            getDetails: makeNative(function() { return null; }, 'getDetails')
        });
    }
    if (!window.chrome.webstore) {
        defineFixed(window.chrome, 'webstore', { onInstallStageChanged: {}, onDownloadProgress: {} });
    }

    // ========== 9. PLUGINS ==========
    const makePlugin = (name, filename, description) => {
        const plugin = Object.create(Plugin.prototype);
        Object.defineProperties(plugin, {
            name: { value: name, enumerable: true },
            filename: { value: filename, enumerable: true },
            description: { value: description, enumerable: true },
            length: { value: 1, enumerable: true },
            0: { value: { type: 'application/pdf', suffixes: 'pdf', description }, enumerable: true }
        });
        return plugin;
    };
    const fakePlugins = Object.create(PluginArray.prototype);
    const pluginList = [
        makePlugin('PDF Viewer', 'internal-pdf-viewer', 'Portable Document Format'),
        makePlugin('Chrome PDF Viewer', 'internal-pdf-viewer', 'Portable Document Format'),
        makePlugin('Chromium PDF Viewer', 'internal-pdf-viewer', 'Portable Document Format'),
        makePlugin('Microsoft Edge PDF Viewer', 'internal-pdf-viewer', 'Portable Document Format'),
        makePlugin('WebKit built-in PDF', 'internal-pdf-viewer', 'Portable Document Format')
    ];
    pluginList.forEach((p, i) => {
        Object.defineProperty(fakePlugins, i, { value: p, enumerable: true });
    });
    Object.defineProperty(fakePlugins, 'length', { value: pluginList.length, enumerable: true });
    Object.defineProperty(fakePlugins, 'item', {
        value: makeNative(function(index) { return this[index] || null; }, 'item'),
        enumerable: false
    });
    Object.defineProperty(fakePlugins, 'namedItem', {
        value: makeNative(function(name) {
            for (let i = 0; i < this.length; i++) if (this[i].name === name) return this[i];
            return null;
        }, 'namedItem'),
        enumerable: false
    });
    Object.defineProperty(fakePlugins, 'refresh', {
        value: makeNative(function() {}, 'refresh'),
        enumerable: false
    });
    Object.defineProperty(fakePlugins, Symbol.iterator, {
        value: function* () { for (let i = 0; i < this.length; i++) yield this[i]; },
        enumerable: false
    });
    Object.defineProperty(navProto, 'plugins', {
        get: makeNative(function() { return fakePlugins; }, 'get plugins'),
        configurable: true, enumerable: true
    });

    // ========== 10. PERMISSIONS ==========
    try {
        const nativeQuery = window.navigator.permissions.query;
        Object.defineProperty(window.navigator.permissions.__proto__, 'query', {
            value: makeNative(function(parameters) {
                return parameters.name === 'notifications'
                    ? Promise.resolve({ state: Notification.permission })
                    : nativeQuery.call(this, parameters);
            }, 'query'),
            writable: true, configurable: true
        });
    } catch(e) {}

    // ========== 11. IFRAME PROTECTION ==========
    const nativeCreateElement = document.createElement;
    document.createElement = makeNative(function(...args) {
        const element = nativeCreateElement.apply(this, args);
        if (args[0] && args[0].toLowerCase() === 'iframe') {
            element.addEventListener('load', () => {
                try {
                    if (element.contentWindow && !element.contentWindow.chrome) {
                        element.contentWindow.chrome = window.chrome;
                    }
                } catch(e) {}
            });
        }
        return element;
    }, 'createElement');
})();
"#;

/// The fractional digits of a ratio held in thousandths, trailing zeros
/// dropped (`500` gives `5`, `250` gives `25`, `125` gives `125`).
pub open spec fn fraction_digits(f: nat) -> Seq<char> {
    if f % 100 == 0 {
        seq![digit_char(f / 100)]
    } else if f % 10 == 0 {
        seq![digit_char(f / 100), digit_char((f / 10) % 10)]
    } else {
        seq![digit_char(f / 100), digit_char((f / 10) % 10), digit_char(f % 10)]
    }
}

/// A ratio held in thousandths as a shortest decimal: `1000` is `1`,
/// `1500` is `1.5`, `2625` is `2.625`.
pub open spec fn ratio_text(milli: nat) -> Seq<char> {
    if milli % 1000 == 0 {
        decimal(milli / 1000)
    } else {
        decimal(milli / 1000) + "."@ + fraction_digits(milli % 1000)
    }
}

/// What follows the core count in the bootstrap script of a profile.
pub open spec fn script_rest(p: ProfileModel) -> Seq<char> {
    MEMORY_LINE@ + decimal(p.memory_gb as nat)
        + RATIO_LINE@ + ratio_text(p.pixel_ratio_milli as nat)
        + WIDTH_LINE@ + decimal(p.screen_width as nat)
        + HEIGHT_LINE@ + decimal(p.screen_height as nat)
        + PLATFORM_LINE@ + os_platform(p.os)
        + HINTS_LINE@ + os_hints_platform(p.os)
        + VERSION_LINE@ + decimal(p.chrome_version as nat)
        + VENDOR_LINE@ + gpu_vendor(p.gpu)
        + RENDERER_LINE@ + gpu_renderer(p.gpu)
        + LOCALE_LINE@ + p.locale
        + TIMEZONE_LINE@ + p.timezone
        + AGENT_LINE@ + user_agent_text(p.os, p.chrome_version)
        + SCRIPT_BODY@
}

/// The bootstrap script of a profile: the head, the core count, and the
/// rest.
pub open spec fn bootstrap_text(p: ProfileModel) -> Seq<char> {
    SCRIPT_HEAD@ + decimal(p.cpu_cores as nat) + ";"@ + script_rest(p)
}

/// The core count that a script states right after the head, if it
/// begins with the head and a decimal number that fits in `u32` follows.
pub open spec fn cores_in_script(s: Seq<char>) -> Option<u32> {
    let h = SCRIPT_HEAD@;
    if h.len() <= s.len() && s.subrange(0, h.len() as int) == h {
        let run = leading_digits(s.subrange(h.len() as int, s.len() as int));
        if run.len() > 0 && digits_value(run) <= u32::MAX {
            Some(digits_value(run) as u32)
        } else {
            None
        }
    } else {
        None
    }
}

/// Appends the shortest decimal of a ratio held in thousandths.
fn push_ratio(s: &mut String, milli: u32)
    ensures
        final(s)@ == old(s)@ + ratio_text(milli as nat),
{
    push_decimal(s, (milli / 1000) as u64);
    let f = milli % 1000;
    if f != 0 {
        s.append(".");
        push_decimal(s, (f / 100) as u64);
        if f % 100 != 0 {
            push_decimal(s, ((f / 10) % 10) as u64);
            if f % 10 != 0 {
                push_decimal(s, (f % 10) as u64);
            }
        }
        proof {
            reveal_with_fuel(decimal, 1);
        }
        assert(final(s)@ =~= old(s)@ + ratio_text(milli as nat));
    }
}

/// The bootstrap script of every profile carries the core count and the
/// memory size as decimal numbers, and both GPU strings verbatim.
pub proof fn lemma_script_carries_profile(p: ProfileModel)
    ensures
        contains(bootstrap_text(p), decimal(p.cpu_cores as nat)),
        contains(bootstrap_text(p), decimal(p.memory_gb as nat)),
        contains(bootstrap_text(p), gpu_vendor(p.gpu)),
        contains(bootstrap_text(p), gpu_renderer(p.gpu)),
{
    broadcast use lemma_contains_in_left, lemma_contains_in_right;
    lemma_contains_self(decimal(p.cpu_cores as nat));
    lemma_contains_self(decimal(p.memory_gb as nat));
    lemma_contains_self(gpu_vendor(p.gpu));
    lemma_contains_self(gpu_renderer(p.gpu));
}

/// Reads the core count back out of a bootstrap script.
pub fn extract_cores(script: &str) -> (r: Option<u32>)
    ensures
        r == cores_in_script(script@),
{
    let n = script.unicode_len();
    let hl = SCRIPT_HEAD.unicode_len();
    if n < hl {
        return None;
    }
    let mut i: usize = 0;
    while i < hl
        invariant
            hl == SCRIPT_HEAD@.len(),
            n == script@.len(),
            hl <= n,
            i <= hl,
            script@.subrange(0, i as int) == SCRIPT_HEAD@.subrange(0, i as int),
        decreases hl - i,
    {
        if script.get_char(i) != SCRIPT_HEAD.get_char(i) {
            assert(script@.subrange(0, hl as int)[i as int] != SCRIPT_HEAD@[i as int]);
            return None;
        }
        assert(script@.subrange(0, i + 1) =~= script@.subrange(0, i as int).push(script@[i as int]));
        assert(SCRIPT_HEAD@.subrange(0, i + 1) =~= SCRIPT_HEAD@.subrange(0, i as int).push(SCRIPT_HEAD@[i as int]));
        i = i + 1;
    }
    assert(SCRIPT_HEAD@.subrange(0, hl as int) =~= SCRIPT_HEAD@);
    let ghost rest = script@.subrange(hl as int, n as int);
    let mut j: usize = hl;
    let mut v: u64 = 0;
    proof {
        assert(script@.subrange(hl as int, j as int) =~= Seq::<char>::empty());
        assert(script@.subrange(j as int, n as int) == rest);
    }
    while j < n
        invariant_except_break
            hl <= j <= n,
            hl == SCRIPT_HEAD@.len(),
            script@.subrange(0, hl as int) == SCRIPT_HEAD@,
            n == script@.len(),
            rest == script@.subrange(hl as int, n as int),
            leading_digits(rest) == script@.subrange(hl as int, j as int)
                + leading_digits(script@.subrange(j as int, n as int)),
            all_digits(script@.subrange(hl as int, j as int)),
            v == digits_value(script@.subrange(hl as int, j as int)),
            v <= u32::MAX,
        ensures
            hl <= j <= n,
            leading_digits(rest) == script@.subrange(hl as int, j as int),
            v == digits_value(script@.subrange(hl as int, j as int)),
            v <= u32::MAX,
        decreases n - j,
    {
        let c = script.get_char(j);
        let ghost tail = script@.subrange(j as int, n as int);
        assert(tail[0] == c);
        if !('0' <= c && c <= '9') {
            assert(leading_digits(tail) =~= Seq::<char>::empty());
            assert(script@.subrange(hl as int, j as int) + Seq::<char>::empty()
                =~= script@.subrange(hl as int, j as int));
            break;
        }
        let ghost run = script@.subrange(hl as int, j as int);
        let ghost next = script@.subrange(hl as int, j + 1);
        assert(next =~= run.push(c));
        assert(tail.drop_first() =~= script@.subrange(j + 1, n as int));
        assert(run + leading_digits(tail) =~= next + leading_digits(script@.subrange(j + 1, n as int)));
        assert(next.drop_last() =~= run);
        v = v * 10 + (c as u64 - '0' as u64);
        if v > u32::MAX as u64 {
            proof {
                assert(next.last() == c);
                assert(digits_value(next) == v);
                lemma_digits_value_grows(next, leading_digits(script@.subrange(j + 1, n as int)));
                assert(digits_value(leading_digits(rest)) > u32::MAX);
            }
            return None;
        }
        j = j + 1;
    }
    if j == hl {
        assert(leading_digits(rest) =~= Seq::<char>::empty());
        return None;
    }
    Some(v as u32)
}

/// Reading the core count back out of the bootstrap script of a profile
/// gives the profile's core count.
pub proof fn lemma_cores_round_trip(p: ProfileModel)
    ensures
        cores_in_script(bootstrap_text(p)) == Some(p.cpu_cores),
{
    let s = bootstrap_text(p);
    let h = SCRIPT_HEAD@;
    let d = decimal(p.cpu_cores as nat);
    let after = ";"@ + script_rest(p);
    assert(s =~= h + (d + after));
    assert(s.subrange(0, h.len() as int) =~= h);
    assert(s.subrange(h.len() as int, s.len() as int) =~= d + after);
    reveal_strlit(";");
    lemma_decimal_digits(p.cpu_cores as nat);
    lemma_leading_digits_stop(d, after);
}

impl ChaserProfile {
    /// The complete bootstrap script of this profile.
    pub fn bootstrap_script(&self) -> (r: String)
        ensures
            r@ == bootstrap_text(self@),
    {
        let mut s = String::from_str(SCRIPT_HEAD);
        push_decimal(&mut s, self.cpu_cores() as u64);
        s.append(";");
        self.push_script_rest(&mut s);
        s
    }

    /// Appends what follows the core count in the bootstrap script.
    fn push_script_rest(&self, s: &mut String)
        ensures
            final(s)@ == old(s)@ + script_rest(self@),
    {
        s.append(MEMORY_LINE);
        push_decimal(s, self.memory_gb() as u64);
        s.append(RATIO_LINE);
        push_ratio(s, self.device_pixel_ratio());
        s.append(WIDTH_LINE);
        push_decimal(s, self.screen_width() as u64);
        s.append(HEIGHT_LINE);
        push_decimal(s, self.screen_height() as u64);
        s.append(PLATFORM_LINE);
        s.append(self.os().platform());
        s.append(HINTS_LINE);
        s.append(self.os().hints_platform());
        s.append(VERSION_LINE);
        push_decimal(s, self.chrome_version() as u64);
        s.append(VENDOR_LINE);
        s.append(self.gpu().vendor());
        s.append(RENDERER_LINE);
        s.append(self.gpu().renderer());
        s.append(LOCALE_LINE);
        s.append(self.locale());
        s.append(TIMEZONE_LINE);
        s.append(self.timezone());
        s.append(AGENT_LINE);
        let agent = self.user_agent();
        s.append(agent.as_str());
        s.append(SCRIPT_BODY);
    }
}

} // verus!
