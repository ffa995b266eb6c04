//! Scripts injected into every content webview, assembled per platform and
//! connection mode, and the helpers behind what pages report back: link
//! and download-name rules, collision-free download names and shortcut
//! values.
use vstd::prelude::*;
use crate::text::{
    chars_of, contains, dec, lacks4, lemma_lacks4_not_contained, lemma_not_contained_concat,
    lemma_replace_all_not_contained, lemma_replace_all_skip, dec_string, has_prefix, lemma_dec_injective, lemma_dec_len,
    lemma_replace_all_absent, lemma_replace_all_concat, lemma_replace_all_keeps_first, occurs_at,
    owned, push_str, replace_all, replace_chars, str_eq, string_of, string_of_all, strip_leading, trim, trim_bounds,
};

verus! {

/// Shared emit helper; every script below may call `EMIT(kind, value)`, which
/// raises the `bridge` event `{label, kind, value}` — the only IPC surface
/// remote content has.
pub const HELPER: &'static str = r##"
  const EMIT = function (kind, value) {
    try {
      if (window.__TAURI__ && window.__TAURI__.event) {
        window.__TAURI__.event.emit('bridge', { label: '__LABEL__', kind: kind, value: value });
      }
    } catch (e) {}
  };
"##;

/// Pre-paint background: the cached theme color on the document element, so
/// no white flash precedes the page's own paint.
pub const PRE_PAINT: &'static str = r##"
  try {
    document.documentElement.style.background = '__HEX__';
    var __ppb = function(){ if (document.body) document.body.style.background = ''; };
    // body background left to the page once it loads; documentElement holds the backstop.
  } catch (e) {}
"##;

/// Web Notifications shim: replaces `window.Notification` (and the service
/// worker `showNotification`) with one that reports `notify` through the
/// bridge, so the WebUI's notifications fire natively. Permission reads as
/// granted; the shell still gates on the notifications preference.
pub const NOTIFICATION_SHIM: &'static str = r##"
  (function () {
    try {
      function HermesNotification(title, opts) {
        opts = opts || {};
        try {
          EMIT('notify', {
            title: String(title == null ? 'Hermes' : title),
            body: String(opts.body || '')
          });
        } catch (e) {}
        this.title = title;
        this.body = opts.body || '';
        this.onclick = null;
        this.onclose = null;
        this.onerror = null;
        this.onshow = null;
      }
      HermesNotification.permission = 'granted';
      HermesNotification.requestPermission = function (cb) {
        if (typeof cb === 'function') cb('granted');
        return Promise.resolve('granted');
      };
      HermesNotification.prototype.close = function () {};
      HermesNotification.prototype.addEventListener = function () {};
      HermesNotification.prototype.removeEventListener = function () {};
      HermesNotification.prototype.dispatchEvent = function () { return false; };
      try {
        Object.defineProperty(window, 'Notification', {
          value: HermesNotification, writable: true, configurable: true
        });
      } catch (e) {
        window.Notification = HermesNotification;
      }
      // The WebUI prefers ServiceWorkerRegistration.showNotification when a SW
      // is active and only falls back to `new Notification` if that REJECTS.
      // In an embedded webview the SW path can resolve but display nothing,
      // swallowing the notification before it reaches the shim above. Route it
      // through the bridge too so SW-first notifications still fire natively.
      try {
        if (window.ServiceWorkerRegistration && ServiceWorkerRegistration.prototype) {
          ServiceWorkerRegistration.prototype.showNotification = function (title, opts) {
            opts = opts || {};
            try {
              EMIT('notify', {
                title: String(title == null ? 'Hermes' : title),
                body: String(opts.body || '')
              });
            } catch (e) {}
            return Promise.resolve();
          };
        }
      } catch (e) {}
    } catch (e) {}
  })();
"##;

/// Hides Web Speech so the WebUI falls back to recording and server-side
/// transcription.
pub const SPEECH_SUPPRESS: &'static str = r##"
  try {
    window.SpeechRecognition = undefined;
    window.webkitSpeechRecognition = undefined;
  } catch (e) {}
"##;

/// Swallows page-level paste events (macOS/Linux): the native paste pipeline
/// owns paste there.
pub const PASTE_SUPPRESS: &'static str = r##"
  try {
    document.addEventListener('paste', function (e) { e.stopImmediatePropagation(); }, true);
  } catch (e) {}
"##;

/// macOS overlay-titlebar integration: traffic-light clearance, the page logo
/// hidden, the page titlebar hidden while the native tab bar shows, and the
/// titlebar marked as a deep Tauri drag region.
pub const MACOS_TITLEBAR: &'static str = r##"
  try { document.documentElement.style.setProperty('--traffic-light-width', '80px'); } catch (e) {}
  (function () {
    try {
      var s = document.createElement('style');
      s.textContent =
        '.app-titlebar-icon { visibility: hidden !important; } ' +
        'body.hermes-mac-tabbed .app-titlebar { display: none !important; }';
      (document.head || document.documentElement).appendChild(s);
    } catch (e) {}
  })();
  (function () {
    var attach = function () {
      try {
        var tb = document.querySelector('.app-titlebar');
        if (tb && tb.getAttribute('data-tauri-drag-region') !== 'deep')
          tb.setAttribute('data-tauri-drag-region', 'deep');
      } catch (e) {}
    };
    if (document.readyState === 'loading') document.addEventListener('DOMContentLoaded', attach);
    else attach();
    setInterval(attach, 3000);
  })();
"##;

/// Theme reporter: the page background (theme-color meta first, then pixel
/// sampling) is reported as `theme` once it differs from the chrome color and
/// has stayed stable for 2.5 s.
pub const THEME_BRIDGE: &'static str = r##"
  (function () {
    const cachedHex = '__HEX__'.toUpperCase();
    let lastReportedHex = null;
    const isOpaque = (c) => c && c !== 'transparent' && c !== 'rgba(0, 0, 0, 0)';
    function rgbStringToHex(s) {
      const m = s.match(/^rgba?\((\d+)\D+(\d+)\D+(\d+)/);
      if (!m) return s.toUpperCase();
      return '#' + [m[1], m[2], m[3]].map(function (n) {
        return parseInt(n, 10).toString(16).padStart(2, '0').toUpperCase();
      }).join('');
    }
    function effectiveBackgroundAt(x, y) {
      if (!document.elementsFromPoint) return null;
      const els = document.elementsFromPoint(x, y);
      for (const el of els) {
        const bg = getComputedStyle(el).backgroundColor;
        if (isOpaque(bg)) return bg;
      }
      return null;
    }
    function themeColorMetaBackground() {
      const meta = document.getElementById('hermes-theme-color');
      if (!meta) return null;
      const content = (meta.getAttribute('content') || '').trim();
      if (!content) return null;
      if (!/^#[0-9a-fA-F]{3}([0-9a-fA-F]{3})?$|^rgba?\(/.test(content)) return null;
      return content;
    }
    function effectiveBackground() {
      const meta = themeColorMetaBackground();
      if (meta) return meta;
      const w = window.innerWidth || 1280;
      const h = window.innerHeight || 800;
      const points = [[w >> 1, h >> 1], [w >> 1, h >> 2], [w >> 2, h >> 1]];
      for (const [x, y] of points) {
        const bg = effectiveBackgroundAt(x, y);
        if (bg) return bg;
      }
      const bodyBg = document.body ? getComputedStyle(document.body).backgroundColor : null;
      if (isOpaque(bodyBg)) return bodyBg;
      return getComputedStyle(document.documentElement).backgroundColor;
    }
    const STABILITY_MS = 2500;
    let pendingHex = null;
    let pendingTimer = null;
    function report() {
      const bg = effectiveBackground();
      if (!bg) return;
      const hex = rgbStringToHex(bg);
      const currentChromeHex = lastReportedHex || cachedHex;
      if (hex === currentChromeHex) {
        pendingHex = null;
        clearTimeout(pendingTimer);
        return;
      }
      if (hex === pendingHex) return;
      pendingHex = hex;
      clearTimeout(pendingTimer);
      pendingTimer = setTimeout(function () {
        if (pendingHex === hex) {
          lastReportedHex = hex;
          EMIT('theme', bg);
        }
      }, STABILITY_MS);
    }
    const observer = new MutationObserver(() => requestAnimationFrame(report));
    function start() {
      report();
      observer.observe(document.documentElement, {
        attributes: true,
        attributeFilter: ['class', 'data-theme', 'style', 'data-mode']
      });
      if (document.body) {
        observer.observe(document.body, {
          attributes: true,
          attributeFilter: ['class', 'data-theme', 'style', 'data-mode']
        });
      }
      const themeMeta = document.getElementById('hermes-theme-color');
      if (themeMeta) {
        observer.observe(themeMeta, { attributes: true, attributeFilter: ['content'] });
      }
      setInterval(report, 2000);
    }
    if (document.readyState === 'loading') document.addEventListener('DOMContentLoaded', start);
    else start();
    window.addEventListener('focus', report);
    const mq = window.matchMedia('(prefers-color-scheme: dark)');
    if (mq.addEventListener) mq.addEventListener('change', report);
    else if (mq.addListener) mq.addListener(report);
  })();
"##;

/// `window.open` and `target=_blank` become top-frame navigations for http(s)
/// URLs, which the native navigation policy then keeps (same origin) or
/// hands to the system browser; other schemes are dropped for `window.open`
/// and left to their default action for anchors.
pub const WINDOW_OPEN: &'static str = r##"
  (function () {
    window.open = function (u) {
      if (!u) return null;
      try {
        var x = new URL(String(u), location.href);
        if (x.protocol === 'http:' || x.protocol === 'https:') location.href = x.href;
      } catch (e) {}
      return null;
    };
    document.addEventListener('click', function (e) {
      var a = e.target && e.target.closest ? e.target.closest('a[target="_blank"]') : null;
      if (!a || !a.href) return;
      if (a.protocol !== 'http:' && a.protocol !== 'https:') return;
      e.preventDefault();
      e.stopPropagation();
      location.href = a.href;
    }, true);
  })();
"##;

/// SSH footer: a 28 px status bar tinted with the page background, with a
/// Reconnect button; driven by `window.__hermesSetTunnelStatus(state, host,
/// port)`. Injected only into ssh-mode windows.
pub const SSH_FOOTER: &'static str = r##"
  (function () {
    var build = function () {
      if (document.getElementById('hermes-ssh-footer')) return;
      try {
        var s = document.createElement('style');
        s.textContent =
          'body { height: calc(100vh - 28px) !important; min-height: calc(100vh - 28px) !important; max-height: calc(100vh - 28px) !important; }' +
          '#hermes-ssh-footer { position: fixed; left: 0; right: 0; bottom: 0; height: 28px; display: flex; align-items: center; gap: 8px; padding: 0 12px; font: 11px -apple-system, system-ui, sans-serif; color: rgba(128,128,128,0.95); border-top: 1px solid rgba(128,128,128,0.25); background: __HEX__; z-index: 2147483647; box-sizing: border-box; }' +
          '#hermes-ssh-dot { width: 10px; height: 10px; border-radius: 5px; background: #8e8e93; flex: none; }' +
          '#hermes-ssh-reconnect { display: none; margin-left: auto; font-size: 11px; padding: 2px 10px; border-radius: 5px; border: 1px solid rgba(128,128,128,0.4); background: transparent; color: inherit; cursor: pointer; }';
        (document.head || document.documentElement).appendChild(s);
        var bar = document.createElement('div');
        bar.id = 'hermes-ssh-footer';
        bar.innerHTML = '<div id="hermes-ssh-dot"></div><span id="hermes-ssh-label">Connecting…</span><button id="hermes-ssh-reconnect">Reconnect</button>';
        document.body.appendChild(bar);
        document.getElementById('hermes-ssh-reconnect').addEventListener('click', function () { EMIT('reconnect', ''); });
        if (window.__hermesTunnelInit) window.__hermesSetTunnelStatus.apply(null, window.__hermesTunnelInit);
      } catch (e) {}
    };
    if (document.readyState === 'loading') document.addEventListener('DOMContentLoaded', build);
    else build();
  })();
  window.__hermesSetTunnelStatus = function (state, host, port) {
    try {
      window.__hermesTunnelInit = [state, host, port];
      var dot = document.getElementById('hermes-ssh-dot');
      var label = document.getElementById('hermes-ssh-label');
      var btn = document.getElementById('hermes-ssh-reconnect');
      if (!dot || !label || !btn) return;
      if (state === 'connected') {
        dot.style.background = '#34c759';
        label.textContent = 'Tunnel connected · ' + host + ' · port ' + port;
        btn.style.display = 'none';
      } else if (state === 'connecting') {
        dot.style.background = '#8e8e93';
        label.textContent = 'Connecting…';
        btn.style.display = 'none';
      } else {
        dot.style.background = '#ff3b30';
        label.textContent = 'Tunnel disconnected · click Reconnect to retry';
        btn.style.display = 'inline-block';
      }
    } catch (e) {}
  };
"##;

/// In-page find bar (Cmd/Ctrl+F, Enter/Shift+Enter, Esc) over `window.find`,
/// exposing `__hermesFindToggle` and `__hermesFindNext` to the menus.
pub const FIND_BAR: &'static str = r##"
  (function () {
    var bar = null, input = null, visible = false;
    function build() {
      if (bar) return;
      var s = document.createElement('style');
      s.textContent =
        '#hermes-find{position:fixed;top:46px;right:18px;z-index:2147483647;display:none;align-items:center;gap:6px;padding:6px 8px;border-radius:8px;background:rgba(40,40,42,0.94);box-shadow:0 4px 18px rgba(0,0,0,0.35);font:12px -apple-system,system-ui,sans-serif;color:#eee;}' +
        '#hermes-find input{width:200px;font:12px -apple-system,system-ui,sans-serif;padding:3px 7px;border-radius:5px;border:1px solid rgba(255,255,255,0.2);background:rgba(0,0,0,0.3);color:#fff;outline:none;}' +
        '#hermes-find button{font:12px -apple-system,system-ui,sans-serif;padding:2px 8px;border-radius:5px;border:1px solid rgba(255,255,255,0.2);background:transparent;color:#eee;cursor:pointer;}';
      (document.head || document.documentElement).appendChild(s);
      bar = document.createElement('div');
      bar.id = 'hermes-find';
      bar.innerHTML = '<input placeholder="Find in page…"><button data-d="p">‹</button><button data-d="n">›</button><button data-d="x">Done</button>';
      document.body.appendChild(bar);
      input = bar.querySelector('input');
      input.addEventListener('keydown', function (e) {
        if (e.key === 'Enter') { e.preventDefault(); find(!e.shiftKey); }
        else if (e.key === 'Escape') { hide(); }
        e.stopPropagation();
      });
      bar.querySelector('[data-d="p"]').addEventListener('click', function () { find(false); });
      bar.querySelector('[data-d="n"]').addEventListener('click', function () { find(true); });
      bar.querySelector('[data-d="x"]').addEventListener('click', hide);
    }
    function find(forward) {
      var q = input && input.value;
      if (!q) return;
      try { window.find(q, false, !forward, true, false, true, false); } catch (e) {}
    }
    function show() { build(); bar.style.display = 'flex'; visible = true; input.focus(); input.select(); }
    function hide() { if (bar) bar.style.display = 'none'; visible = false; try { input && input.blur(); } catch (e) {} }
    function toggle() { if (visible) hide(); else show(); }
    window.__hermesFindToggle = toggle;
    window.__hermesFindNext = function (forward) { if (!visible) { show(); return; } find(forward); };
    document.addEventListener('keydown', function (e) {
      var mod = e.metaKey || e.ctrlKey;
      if (mod && !e.shiftKey && !e.altKey && (e.key === 'f' || e.key === 'F')) {
        e.preventDefault(); e.stopPropagation(); toggle();
      } else if (mod && !e.altKey && (e.key === 'g' || e.key === 'G')) {
        e.preventDefault(); e.stopPropagation(); window.__hermesFindNext(!e.shiftKey);
      } else if (e.key === 'Escape' && visible) {
        hide();
      }
    }, true);
  })();
"##;

/// App-shortcut forwarder (not on macOS, which has menu accelerators):
/// forwards exactly this set of Ctrl shortcuts as `shortcut` events.
pub const SHORTCUT_FORWARDER: &'static str = r##"
  document.addEventListener('keydown', function (e) {
    if (!e.ctrlKey || e.altKey || e.metaKey) return;
    var k = (e.key || '').toLowerCase();
    var send = function (v) { e.preventDefault(); e.stopPropagation(); EMIT('shortcut', v); };
    if (k === 'tab') { send(e.shiftKey ? 'prev-tab' : 'next-tab'); return; }
    if (k === 'b' && e.shiftKey) { send('toggle-bar'); return; }
    if (e.shiftKey) return;
    if (k === 't') send('new-tab');
    else if (k === 'n') send('new-window');
    else if (k === 'w') send('close');
    else if (k === 'r') { e.preventDefault(); e.stopPropagation(); location.reload(); }
    else if (k === ',') send('prefs');
    else if (k === '=' || k === '+') send('zoom-in');
    else if (k === '-') send('zoom-out');
    else if (k === '0') send('zoom-reset');
  }, true);
"##;

/// Download bridge (macOS/Linux): `a[download]` and `blob:` clicks are read
/// in-page and handed over as base64 (`download`), or flagged
/// `download-too-big` beyond 30 MB.
pub const DOWNLOAD_BRIDGE: &'static str = r##"
  document.addEventListener('click', function (e) {
    var a = e.target && e.target.closest ? e.target.closest('a[download], a[href^="blob:"]') : null;
    if (!a) return;
    var href = a.getAttribute('href') || '';
    if (!href || href === '#') return;
    e.preventDefault();
    e.stopPropagation();
    var name = a.getAttribute('download');
    if (!name) {
      try { name = new URL(href, location.href).pathname.split('/').pop(); } catch (err) {}
    }
    name = name || 'download';
    fetch(href)
      .then(function (r) { return r.blob(); })
      .then(function (b) {
        if (b.size > 30 * 1024 * 1024) {
          EMIT('download-too-big', { name: name, size: b.size });
          return;
        }
        var fr = new FileReader();
        fr.onload = function () {
          var data = String(fr.result);
          EMIT('download', { name: name, data: data.slice(data.indexOf(',') + 1) });
        };
        fr.readAsDataURL(b);
      })
      .catch(function () {});
  }, true);
"##;

/// Route reporter: the page's live `location.href`, including client-side
/// history routes, reported as `route` whenever it changes.
pub const ROUTE_REPORTER: &'static str = r##"
  (function () {
    var last = '';
    var report = function () {
      try {
        var h = location.href;
        if (h && h !== last) { last = h; EMIT('route', h); }
      } catch (e) {}
    };
    var wrap = function (name) {
      try {
        var orig = history[name];
        if (typeof orig === 'function') {
          history[name] = function () { var r = orig.apply(this, arguments); report(); return r; };
        }
      } catch (e) {}
    };
    wrap('pushState'); wrap('replaceState');
    window.addEventListener('popstate', report);
    window.addEventListener('hashchange', report);
    if (document.readyState === 'loading') document.addEventListener('DOMContentLoaded', report);
    else report();
    setInterval(report, 2000);
  })();
"##;

/// Active-profile reporter for the strip's profile dot (not on macOS):
/// `/api/profile/active`'s name reported as `profile` on load, on navigation
/// and on a 3 s / focus backstop, whenever it changes.
pub const PROFILE_REPORTER: &'static str = r##"
  (function () {
    var last = null;
    var report = function () {
      try {
        fetch('/api/profile/active', { credentials: 'same-origin', cache: 'no-store' })
          .then(function (r) { return r.ok ? r.json() : null; })
          .then(function (p) {
            if (!p) return;
            var name = p.name || '';
            if (name !== last) { last = name; EMIT('profile', name); }
          })
          .catch(function () {});
      } catch (e) {}
    };
    var wrap = function (n) {
      try {
        var orig = history[n];
        if (typeof orig === 'function') {
          history[n] = function () { var r = orig.apply(this, arguments); report(); return r; };
        }
      } catch (e) {}
    };
    wrap('pushState'); wrap('replaceState');
    window.addEventListener('popstate', report);
    window.addEventListener('hashchange', report);
    if (document.readyState === 'loading') document.addEventListener('DOMContentLoaded', report);
    else report();
    setInterval(report, 3000);
    window.addEventListener('focus', report);
  })();
"##;

/// macOS active-profile reporter for the native tab title: like the strip's
/// reporter, but reports `mac-profile` with an empty name for the default
/// profile.
pub const MACOS_PROFILE_REPORTER: &'static str = r##"
  (function () {
    var last = null;
    var report = function () {
      try {
        fetch('/api/profile/active', { credentials: 'same-origin', cache: 'no-store' })
          .then(function (r) { return r.ok ? r.json() : null; })
          .then(function (p) {
            if (!p) return;
            var name = p.is_default ? '' : (p.name || '');
            if (name !== last) { last = name; EMIT('mac-profile', name); }
          })
          .catch(function () {});
      } catch (e) {}
    };
    var wrap = function (n) {
      try {
        var orig = history[n];
        if (typeof orig === 'function') {
          history[n] = function () { var r = orig.apply(this, arguments); report(); return r; };
        }
      } catch (e) {}
    };
    wrap('pushState'); wrap('replaceState');
    window.addEventListener('popstate', report);
    window.addEventListener('hashchange', report);
    if (document.readyState === 'loading') document.addEventListener('DOMContentLoaded', report);
    else report();
    setInterval(report, 3000);
    window.addEventListener('focus', report);
  })();
"##;

/// Cross-tab theme sync, evaluated on demand in the other content webviews:
/// re-applies theme and skin from shared localStorage.
pub const THEME_SYNC_EVAL: &'static str = r##"
  (function () {
    try {
      if (typeof _applyTheme === 'function') _applyTheme(localStorage.getItem('hermes-theme') || 'dark');
      if (typeof _applySkin === 'function') _applySkin(localStorage.getItem('hermes-skin') || 'default');
      if (typeof _syncThemePicker === 'function') _syncThemePicker(localStorage.getItem('hermes-theme') || 'dark');
      if (typeof _syncSkinPicker === 'function') _syncSkinPicker(localStorage.getItem('hermes-skin') || 'default');
    } catch (e) {}
  })();
"##;

/// The platform an initialization script is assembled for.
#[derive(Clone, Copy, Debug, PartialEq, Eq, Structural)]
pub enum TargetOs {
    MacOs,
    Linux,
    /// Windows and every other platform.
    Other,
}

/// Placeholder for the webview label in the scripts.
pub const LABEL_PLACEHOLDER: &'static str = "__LABEL__";

/// Placeholder for the pre-paint color in the scripts.
pub const HEX_PLACEHOLDER: &'static str = "__HEX__";

/// Empty text unless `b`.
pub open spec fn when(b: bool, s: Seq<char>) -> Seq<char> {
    if b {
        s
    } else {
        Seq::empty()
    }
}

/// The scripts a webview gets, concatenated in injection order: the shared
/// ones everywhere; paste suppression and the download bridge on macOS and
/// Linux; titlebar integration and the title profile reporter on macOS; the
/// shortcut forwarder and the dot profile reporter elsewhere; the ssh footer
/// in ssh-mode windows.
pub open spec fn spec_script_body(is_ssh: bool, os: TargetOs) -> Seq<char> {
    let mac = os == TargetOs::MacOs;
    let mac_or_linux = os == TargetOs::MacOs || os == TargetOs::Linux;
    HELPER@ + PRE_PAINT@ + NOTIFICATION_SHIM@ + SPEECH_SUPPRESS@ + when(mac_or_linux, PASTE_SUPPRESS@)
        + when(mac, MACOS_TITLEBAR@ + MACOS_PROFILE_REPORTER@) + when(
        !mac,
        SHORTCUT_FORWARDER@ + PROFILE_REPORTER@,
    ) + THEME_BRIDGE@ + ROUTE_REPORTER@ + WINDOW_OPEN@ + FIND_BAR@ + when(
        mac_or_linux,
        DOWNLOAD_BRIDGE@,
    ) + when(is_ssh, SSH_FOOTER@)
}

/// `s` with its placeholders filled in: every `__LABEL__` replaced by the
/// label, then every `__HEX__` by the pre-paint color.
pub open spec fn fill_placeholders(s: Seq<char>, label: Seq<char>, pre_paint_hex: Seq<char>) -> Seq<char> {
    replace_all(replace_all(s, LABEL_PLACEHOLDER@, label), HEX_PLACEHOLDER@, pre_paint_hex)
}

/// The per-webview initialization script: the body wrapped in one function,
/// its placeholders filled in.
pub open spec fn spec_init_script(label: Seq<char>, pre_paint_hex: Seq<char>, is_ssh: bool, os: TargetOs) -> Seq<char> {
    fill_placeholders(
        "(function () {\n"@ + spec_script_body(is_ssh, os) + "\n})();"@,
        label,
        pre_paint_hex,
    )
}

/// A plain window's script up to its closing `\n})();`: the opening and
/// the body without the ssh footer, placeholders filled in.
pub open spec fn script_head(label: Seq<char>, pre_paint_hex: Seq<char>, os: TargetOs) -> Seq<char> {
    fill_placeholders("(function () {\n"@ + spec_script_body(false, os), label, pre_paint_hex)
}

/// Append `s` to `out` whose text so far is `base + acc`.
fn push_part(out: &mut String, s: &str, Ghost(base): Ghost<Seq<char>>, Ghost(acc): Ghost<Seq<char>>)
    requires
        old(out)@ == base + acc,
    ensures
        final(out)@ == base + (acc + s@),
{
    push_str(out, s);
    assert(final(out)@ =~= base + (acc + s@));
}

/// Append the script body for `is_ssh` and `os`.
fn push_script_body(out: &mut String, is_ssh: bool, os: TargetOs)
    ensures
        final(out)@ == old(out)@ + spec_script_body(is_ssh, os),
{
    let mac = os == TargetOs::MacOs;
    let mac_or_linux = os == TargetOs::MacOs || os == TargetOs::Linux;
    let ghost base = out@;
    assert(out@ =~= base + Seq::<char>::empty());
    push_part(out, HELPER, Ghost(base), Ghost(Seq::empty()));
    let ghost acc = Seq::<char>::empty() + HELPER@;
    push_part(out, PRE_PAINT, Ghost(base), Ghost(acc));
    let ghost acc = acc + PRE_PAINT@;
    push_part(out, NOTIFICATION_SHIM, Ghost(base), Ghost(acc));
    let ghost acc = acc + NOTIFICATION_SHIM@;
    push_part(out, SPEECH_SUPPRESS, Ghost(base), Ghost(acc));
    let ghost acc = acc + SPEECH_SUPPRESS@;
    if mac_or_linux {
        push_part(out, PASTE_SUPPRESS, Ghost(base), Ghost(acc));
    } else {
        assert(out@ =~= base + (acc + Seq::<char>::empty()));
    }
    let ghost acc = acc + when(mac_or_linux, PASTE_SUPPRESS@);
    if mac {
        push_part(out, MACOS_TITLEBAR, Ghost(base), Ghost(acc));
        push_part(out, MACOS_PROFILE_REPORTER, Ghost(base), Ghost(acc + MACOS_TITLEBAR@));
        assert(acc + MACOS_TITLEBAR@ + MACOS_PROFILE_REPORTER@ =~= acc + (MACOS_TITLEBAR@ + MACOS_PROFILE_REPORTER@));
    } else {
        assert(out@ =~= base + (acc + Seq::<char>::empty()));
    }
    let ghost acc = acc + when(mac, MACOS_TITLEBAR@ + MACOS_PROFILE_REPORTER@);
    if !mac {
        push_part(out, SHORTCUT_FORWARDER, Ghost(base), Ghost(acc));
        push_part(out, PROFILE_REPORTER, Ghost(base), Ghost(acc + SHORTCUT_FORWARDER@));
        assert(acc + SHORTCUT_FORWARDER@ + PROFILE_REPORTER@ =~= acc + (SHORTCUT_FORWARDER@ + PROFILE_REPORTER@));
    } else {
        assert(out@ =~= base + (acc + Seq::<char>::empty()));
    }
    let ghost acc = acc + when(!mac, SHORTCUT_FORWARDER@ + PROFILE_REPORTER@);
    push_part(out, THEME_BRIDGE, Ghost(base), Ghost(acc));
    let ghost acc = acc + THEME_BRIDGE@;
    push_part(out, ROUTE_REPORTER, Ghost(base), Ghost(acc));
    let ghost acc = acc + ROUTE_REPORTER@;
    push_part(out, WINDOW_OPEN, Ghost(base), Ghost(acc));
    let ghost acc = acc + WINDOW_OPEN@;
    push_part(out, FIND_BAR, Ghost(base), Ghost(acc));
    let ghost acc = acc + FIND_BAR@;
    if mac_or_linux {
        push_part(out, DOWNLOAD_BRIDGE, Ghost(base), Ghost(acc));
    } else {
        assert(out@ =~= base + (acc + Seq::<char>::empty()));
    }
    let ghost acc = acc + when(mac_or_linux, DOWNLOAD_BRIDGE@);
    if is_ssh {
        push_part(out, SSH_FOOTER, Ghost(base), Ghost(acc));
    } else {
        assert(out@ =~= base + (acc + Seq::<char>::empty()));
    }
    let ghost acc = acc + when(is_ssh, SSH_FOOTER@);
    assert(Seq::<char>::empty() + HELPER@ =~= HELPER@);
    assert(acc == spec_script_body(is_ssh, os));
}

/// Assemble the initialization script of the webview `label`.
pub fn init_script(label: &str, pre_paint_hex: &str, is_ssh: bool, os: TargetOs) -> (js: String)
    ensures
        js@ == spec_init_script(label@, pre_paint_hex@, is_ssh, os),
{
    let mut out = owned("(function () {\n");
    push_script_body(&mut out, is_ssh, os);
    push_str(&mut out, "\n})();");
    let v = chars_of(out.as_str());
    let lp = chars_of(LABEL_PLACEHOLDER);
    let lv = chars_of(label);
    proof {
        reveal_strlit("__LABEL__");
        reveal_strlit("__HEX__");
    }
    let v1 = replace_chars(&v, &lp, &lv);
    let hp = chars_of(HEX_PLACEHOLDER);
    let hv = chars_of(pre_paint_hex);
    let v2 = replace_chars(&v1, &hp, &hv);
    string_of_all(&v2)
}

/// The characters of the two placeholders.
proof fn lemma_placeholder_chars()
    ensures
        LABEL_PLACEHOLDER@.len() == 9,
        HEX_PLACEHOLDER@.len() == 7,
        LABEL_PLACEHOLDER@[0] == '_',
        HEX_PLACEHOLDER@[0] == '_',
        forall|c: char| #[trigger] LABEL_PLACEHOLDER@.contains(c) ==> c == '_' || c == 'L' || c == 'A' || c == 'B' || c == 'E',
        forall|c: char| #[trigger] HEX_PLACEHOLDER@.contains(c) ==> c == '_' || c == 'H' || c == 'E' || c == 'X',
{
    reveal_strlit("__LABEL__");
    reveal_strlit("__HEX__");
}

/// What the ssh footer's text holds where the laws below look.
proof fn lemma_footer_text()
    ensures
        SSH_FOOTER@.len() == 2702,
        SSH_FOOTER@[0] == '\n',
        SSH_FOOTER@.subrange(83, 100) == "hermes-ssh-footer"@,
        SSH_FOOTER@[100] == '\'',
        SSH_FOOTER@.subrange(1560, 1584) == ".__hermesSetTunnelStatus"@,
        SSH_FOOTER@[1584] == '.',
{
    reveal_strlit(r##"
  (function () {
    var build = function () {
      if (document.getElementById('hermes-ssh-footer')) return;
      try {
        var s = document.createElement('style');
        s.textContent =
          'body { height: calc(100vh - 28px) !important; min-height: calc(100vh - 28px) !important; max-height: calc(100vh - 28px) !important; }' +
          '#hermes-ssh-footer { position: fixed; left: 0; right: 0; bottom: 0; height: 28px; display: flex; align-items: center; gap: 8px; padding: 0 12px; font: 11px -apple-system, system-ui, sans-serif; color: rgba(128,128,128,0.95); border-top: 1px solid rgba(128,128,128,0.25); background: __HEX__; z-index: 2147483647; box-sizing: border-box; }' +
          '#hermes-ssh-dot { width: 10px; height: 10px; border-radius: 5px; background: #8e8e93; flex: none; }' +
          '#hermes-ssh-reconnect { display: none; margin-left: auto; font-size: 11px; padding: 2px 10px; border-radius: 5px; border: 1px solid rgba(128,128,128,0.4); background: transparent; color: inherit; cursor: pointer; }';
        (document.head || document.documentElement).appendChild(s);
        var bar = document.createElement('div');
        bar.id = 'hermes-ssh-footer';
        bar.innerHTML = '<div id="hermes-ssh-dot"></div><span id="hermes-ssh-label">Connecting…</span><button id="hermes-ssh-reconnect">Reconnect</button>';
        document.body.appendChild(bar);
        document.getElementById('hermes-ssh-reconnect').addEventListener('click', function () { EMIT('reconnect', ''); });
        if (window.__hermesTunnelInit) window.__hermesSetTunnelStatus.apply(null, window.__hermesTunnelInit);
      } catch (e) {}
    };
    if (document.readyState === 'loading') document.addEventListener('DOMContentLoaded', build);
    else build();
  })();
  window.__hermesSetTunnelStatus = function (state, host, port) {
    try {
      window.__hermesTunnelInit = [state, host, port];
      var dot = document.getElementById('hermes-ssh-dot');
      var label = document.getElementById('hermes-ssh-label');
      var btn = document.getElementById('hermes-ssh-reconnect');
      if (!dot || !label || !btn) return;
      if (state === 'connected') {
        dot.style.background = '#34c759';
        label.textContent = 'Tunnel connected · ' + host + ' · port ' + port;
        btn.style.display = 'none';
      } else if (state === 'connecting') {
        dot.style.background = '#8e8e93';
        label.textContent = 'Connecting…';
        btn.style.display = 'none';
      } else {
        dot.style.background = '#ff3b30';
        label.textContent = 'Tunnel disconnected · click Reconnect to retry';
        btn.style.display = 'inline-block';
      }
    } catch (e) {}
  };
"##);
    reveal_strlit("hermes-ssh-footer");
    reveal_strlit(".__hermesSetTunnelStatus");
    assert(SSH_FOOTER@ == r##"
  (function () {
    var build = function () {
      if (document.getElementById('hermes-ssh-footer')) return;
      try {
        var s = document.createElement('style');
        s.textContent =
          'body { height: calc(100vh - 28px) !important; min-height: calc(100vh - 28px) !important; max-height: calc(100vh - 28px) !important; }' +
          '#hermes-ssh-footer { position: fixed; left: 0; right: 0; bottom: 0; height: 28px; display: flex; align-items: center; gap: 8px; padding: 0 12px; font: 11px -apple-system, system-ui, sans-serif; color: rgba(128,128,128,0.95); border-top: 1px solid rgba(128,128,128,0.25); background: __HEX__; z-index: 2147483647; box-sizing: border-box; }' +
          '#hermes-ssh-dot { width: 10px; height: 10px; border-radius: 5px; background: #8e8e93; flex: none; }' +
          '#hermes-ssh-reconnect { display: none; margin-left: auto; font-size: 11px; padding: 2px 10px; border-radius: 5px; border: 1px solid rgba(128,128,128,0.4); background: transparent; color: inherit; cursor: pointer; }';
        (document.head || document.documentElement).appendChild(s);
        var bar = document.createElement('div');
        bar.id = 'hermes-ssh-footer';
        bar.innerHTML = '<div id="hermes-ssh-dot"></div><span id="hermes-ssh-label">Connecting…</span><button id="hermes-ssh-reconnect">Reconnect</button>';
        document.body.appendChild(bar);
        document.getElementById('hermes-ssh-reconnect').addEventListener('click', function () { EMIT('reconnect', ''); });
        if (window.__hermesTunnelInit) window.__hermesSetTunnelStatus.apply(null, window.__hermesTunnelInit);
      } catch (e) {}
    };
    if (document.readyState === 'loading') document.addEventListener('DOMContentLoaded', build);
    else build();
  })();
  window.__hermesSetTunnelStatus = function (state, host, port) {
    try {
      window.__hermesTunnelInit = [state, host, port];
      var dot = document.getElementById('hermes-ssh-dot');
      var label = document.getElementById('hermes-ssh-label');
      var btn = document.getElementById('hermes-ssh-reconnect');
      if (!dot || !label || !btn) return;
      if (state === 'connected') {
        dot.style.background = '#34c759';
        label.textContent = 'Tunnel connected · ' + host + ' · port ' + port;
        btn.style.display = 'none';
      } else if (state === 'connecting') {
        dot.style.background = '#8e8e93';
        label.textContent = 'Connecting…';
        btn.style.display = 'none';
      } else {
        dot.style.background = '#ff3b30';
        label.textContent = 'Tunnel disconnected · click Reconnect to retry';
        btn.style.display = 'inline-block';
      }
    } catch (e) {}
  };
"##@);
    assert(SSH_FOOTER@.subrange(83, 100) =~= "hermes-ssh-footer"@);
    assert(SSH_FOOTER@.subrange(1560, 1584) =~= ".__hermesSetTunnelStatus"@);
}

/// Filling placeholders in `a + t + b` leaves `t` as it is and fills `a` and
/// `b` apart, when `t` holds no placeholder and neither `t` nor `b` begins
/// with a placeholder character.
proof fn lemma_fill_around(a: Seq<char>, t: Seq<char>, b: Seq<char>, label: Seq<char>, hex: Seq<char>)
    requires
        t.len() > 0,
        b.len() > 0,
        !LABEL_PLACEHOLDER@.contains(t[0]),
        !HEX_PLACEHOLDER@.contains(t[0]),
        !LABEL_PLACEHOLDER@.contains(b[0]),
        !HEX_PLACEHOLDER@.contains(b[0]),
        replace_all(t, LABEL_PLACEHOLDER@, label) == t,
        replace_all(t, HEX_PLACEHOLDER@, hex) == t,
    ensures
        fill_placeholders(a + t + b, label, hex) == fill_placeholders(a, label, hex) + t + fill_placeholders(b, label, hex),
{
    lemma_placeholder_chars();
    let lp = LABEL_PLACEHOLDER@;
    let hp = HEX_PLACEHOLDER@;
    assert(a + t + b =~= a + (t + b));
    assert((t + b)[0] == t[0]);
    lemma_replace_all_concat(a, t + b, lp, label);
    lemma_replace_all_concat(t, b, lp, label);
    let rb = replace_all(b, lp, label);
    lemma_replace_all_keeps_first(b, lp, label);
    assert((t + rb)[0] == t[0]);
    lemma_replace_all_concat(replace_all(a, lp, label), t + rb, hp, hex);
    lemma_replace_all_concat(t, rb, hp, hex);
    assert(fill_placeholders(a, label, hex) + (t + fill_placeholders(b, label, hex))
        =~= fill_placeholders(a, label, hex) + t + fill_placeholders(b, label, hex));
}

/// An ssh-mode window's initialization script is a plain window's with the
/// ssh footer, its placeholders filled in, inserted just before the closing
/// `\n})();`; everything else is the same.
pub proof fn ssh_script_inserts_footer(label: Seq<char>, pre_paint_hex: Seq<char>, os: TargetOs)
    ensures
        spec_init_script(label, pre_paint_hex, false, os) == script_head(label, pre_paint_hex, os) + "\n})();"@,
        spec_init_script(label, pre_paint_hex, true, os) == script_head(label, pre_paint_hex, os)
            + fill_placeholders(SSH_FOOTER@, label, pre_paint_hex) + "\n})();"@,
{
    lemma_placeholder_chars();
    lemma_footer_text();
    reveal_strlit("\n})();");
    let lp = LABEL_PLACEHOLDER@;
    let hp = HEX_PLACEHOLDER@;
    let w = "(function () {\n"@ + spec_script_body(false, os);
    let f = SSH_FOOTER@;
    let e = "\n})();"@;
    assert(spec_script_body(false, os) + Seq::<char>::empty() =~= spec_script_body(false, os));
    assert("(function () {\n"@ + spec_script_body(true, os) + e =~= (w + f) + e);
    assert("(function () {\n"@ + spec_script_body(false, os) + e =~= w + e);
    assert(!lp.contains(e[0]) && !hp.contains(e[0]));
    assert(!lp.contains(f[0]) && !hp.contains(f[0]));
    // The closing text is shorter than either placeholder.
    assert(replace_all(e, lp, label) == e);
    assert(replace_all(e, hp, pre_paint_hex) == e);
    // Plain window.
    lemma_replace_all_concat(w, e, lp, label);
    lemma_replace_all_concat(replace_all(w, lp, label), e, hp, pre_paint_hex);
    // Ssh window.
    lemma_replace_all_concat(w + f, e, lp, label);
    lemma_replace_all_concat(w, f, lp, label);
    let rw = replace_all(w, lp, label);
    let rf = replace_all(f, lp, label);
    lemma_replace_all_keeps_first(f, lp, label);
    lemma_replace_all_concat(rw + rf, e, hp, pre_paint_hex);
    lemma_replace_all_concat(rw, rf, hp, pre_paint_hex);
}

/// An ssh-mode window's initialization script carries the footer element
/// and the tunnel status hook, whatever the label and color.
pub proof fn ssh_script_holds_footer(label: Seq<char>, pre_paint_hex: Seq<char>, os: TargetOs)
    ensures
        contains(spec_init_script(label, pre_paint_hex, true, os), "hermes-ssh-footer"@),
        contains(spec_init_script(label, pre_paint_hex, true, os), "__hermesSetTunnelStatus"@),
{
    lemma_placeholder_chars();
    lemma_footer_text();
    ssh_script_inserts_footer(label, pre_paint_hex, os);
    reveal_strlit("hermes-ssh-footer");
    reveal_strlit(".__hermesSetTunnelStatus");
    reveal_strlit("__hermesSetTunnelStatus");
    reveal_strlit(".__");
    reveal_strlit("hermesSetTunnelStatus");
    let lp = LABEL_PLACEHOLDER@;
    let hp = HEX_PLACEHOLDER@;
    let f = SSH_FOOTER@;
    let head = script_head(label, pre_paint_hex, os);
    let e = "\n})();"@;
    let script = spec_init_script(label, pre_paint_hex, true, os);
    // The footer element's id.
    let t = "hermes-ssh-footer"@;
    lemma_replace_all_absent(t, lp, label);
    lemma_replace_all_absent(t, hp, pre_paint_hex);
    let a = f.take(83);
    let b = f.skip(100);
    assert(f =~= a + t + b);
    assert(b[0] == f[100]);
    lemma_fill_around(a, t, b, label, pre_paint_hex);
    let fa = fill_placeholders(a, label, pre_paint_hex);
    let fb = fill_placeholders(b, label, pre_paint_hex);
    assert(script =~= head + fa + t + fb + e);
    let i: int = (head.len() + fa.len()) as int;
    assert(script.subrange(i, i + t.len()) =~= t);
    assert(occurs_at(script, t, i));
    // The status hook, read after a `.`.
    let v = "hermesSetTunnelStatus"@;
    let u = ".__hermesSetTunnelStatus"@;
    assert(u =~= ".__"@ + v);
    lemma_replace_all_absent(v, lp, label);
    lemma_replace_all_absent(v, hp, pre_paint_hex);
    assert(!lp.contains(v[0]) && !hp.contains(v[0]));
    lemma_replace_all_concat(".__"@, v, lp, label);
    lemma_replace_all_concat(".__"@, v, hp, pre_paint_hex);
    let c = f.take(1560);
    let d = f.skip(1584);
    assert(f =~= c + u + d);
    assert(d[0] == f[1584]);
    lemma_fill_around(c, u, d, label, pre_paint_hex);
    let fc = fill_placeholders(c, label, pre_paint_hex);
    let fd = fill_placeholders(d, label, pre_paint_hex);
    let n = "__hermesSetTunnelStatus"@;
    assert(script =~= head + fc + u + fd + e);
    let j: int = (head.len() + fc.len() + 1) as int;
    assert(script.subrange(j, j + n.len()) =~= n);
    assert(occurs_at(script, n, j));
}

/// Script text holding no start of either placeholder and none of the
/// footer marks' inner runs `ssh-` and `SetT`.
spec fn plain_text(s: Seq<char>) -> bool {
    &&& lacks4(s, '_', '_', 'L', 'A')
    &&& lacks4(s, '_', '_', 'H', 'E')
    &&& lacks4(s, 's', 's', 'h', '-')
    &&& lacks4(s, 'S', 'e', 't', 'T')
}

/// A plain stretch of script starting a line.
spec fn plain_piece(s: Seq<char>) -> bool {
    s.len() > 0 && s[0] == '\n' && plain_text(s)
}

/// The plain stretch before a placeholder: it starts a line and ends with a
/// quote, with no `_` among its last three characters.
spec fn placeholder_head(a: Seq<char>) -> bool {
    &&& a.len() >= 3
    &&& a[0] == '\n'
    &&& plain_text(a)
    &&& a[a.len() - 1] == '\''
    &&& a[a.len() - 2] != '_'
    &&& a[a.len() - 3] != '_'
}

/// The plain stretch after a placeholder: it starts with a quote.
spec fn placeholder_tail(b: Seq<char>) -> bool {
    b.len() > 0 && b[0] == '\'' && plain_text(b)
}

/// Neither footer mark occurs in `s`.
spec fn lacks_marks(s: Seq<char>) -> bool {
    !contains(s, "hermes-ssh-footer"@) && !contains(s, "__hermesSetTunnelStatus"@)
}

/// The characters of the placeholders and of the two footer marks that the
/// laws below look at.
proof fn lemma_mark_chars()
    ensures
        LABEL_PLACEHOLDER@.len() == 9,
        HEX_PLACEHOLDER@.len() == 7,
        LABEL_PLACEHOLDER@[0] == '_' && LABEL_PLACEHOLDER@[1] == '_' && LABEL_PLACEHOLDER@[2] == 'L' && LABEL_PLACEHOLDER@[3] == 'A',
        HEX_PLACEHOLDER@[0] == '_' && HEX_PLACEHOLDER@[1] == '_' && HEX_PLACEHOLDER@[2] == 'H' && HEX_PLACEHOLDER@[3] == 'E',
        "hermes-ssh-footer"@.len() == 17,
        "__hermesSetTunnelStatus"@.len() == 23,
        "hermes-ssh-footer"@[7] == 's' && "hermes-ssh-footer"@[8] == 's' && "hermes-ssh-footer"@[9] == 'h' && "hermes-ssh-footer"@[10] == '-',
        "__hermesSetTunnelStatus"@[8] == 'S' && "__hermesSetTunnelStatus"@[9] == 'e' && "__hermesSetTunnelStatus"@[10] == 't'
            && "__hermesSetTunnelStatus"@[11] == 'T',
        !"hermes-ssh-footer"@.contains('\n') && !"hermes-ssh-footer"@.contains('\''),
        !"__hermesSetTunnelStatus"@.contains('\n') && !"__hermesSetTunnelStatus"@.contains('\''),
        !LABEL_PLACEHOLDER@.contains('\n') && !LABEL_PLACEHOLDER@.contains('\''),
        !HEX_PLACEHOLDER@.contains('\n') && !HEX_PLACEHOLDER@.contains('\''),
{
    reveal_strlit("__LABEL__");
    reveal_strlit("__HEX__");
    reveal_strlit("hermes-ssh-footer");
    reveal_strlit("__hermesSetTunnelStatus");
}

/// Filling placeholders in a concatenation fills each part, when the second
/// part begins with a character of neither placeholder.
proof fn lemma_fill_concat(a: Seq<char>, b: Seq<char>, label: Seq<char>, hex: Seq<char>)
    requires
        b.len() > 0,
        !LABEL_PLACEHOLDER@.contains(b[0]),
        !HEX_PLACEHOLDER@.contains(b[0]),
    ensures
        fill_placeholders(a + b, label, hex) == fill_placeholders(a, label, hex) + fill_placeholders(b, label, hex),
        fill_placeholders(b, label, hex).len() > 0,
        fill_placeholders(b, label, hex)[0] == b[0],
{
    lemma_mark_chars();
    let lp = LABEL_PLACEHOLDER@;
    let hp = HEX_PLACEHOLDER@;
    lemma_replace_all_concat(a, b, lp, label);
    lemma_replace_all_keeps_first(b, lp, label);
    let rb = replace_all(b, lp, label);
    lemma_replace_all_concat(replace_all(a, lp, label), rb, hp, hex);
    lemma_replace_all_keeps_first(rb, hp, hex);
}

/// A plain stretch of script, starting a line, is left as it is by filling
/// and holds neither footer mark.
proof fn lemma_plain_piece(s: Seq<char>, label: Seq<char>, hex: Seq<char>)
    requires
        s.len() > 0,
        s[0] == '\n',
        plain_text(s),
    ensures
        fill_placeholders(s, label, hex) == s,
        !contains(s, "hermes-ssh-footer"@),
        !contains(s, "__hermesSetTunnelStatus"@),
{
    lemma_mark_chars();
    let e = Seq::<char>::empty();
    assert(s + e =~= s);
    lemma_replace_all_skip(s, e, LABEL_PLACEHOLDER@, label);
    lemma_replace_all_skip(s, e, HEX_PLACEHOLDER@, hex);
    lemma_lacks4_not_contained(s, "hermes-ssh-footer"@, 7);
    lemma_lacks4_not_contained(s, "__hermesSetTunnelStatus"@, 8);
}

/// Replacing a placeholder's four-character start in `a + x` leaves a
/// placeholder head `a` as it is: it holds no such start, and its last three
/// characters are not `_`.
proof fn lemma_head_kept(a: Seq<char>, x: Seq<char>, pat: Seq<char>, rep: Seq<char>)
    requires
        placeholder_head(a),
        pat.len() >= 4,
        pat[0] == '_',
        lacks4(a, pat[0], pat[1], pat[2], pat[3]),
    ensures
        replace_all(a + x, pat, rep) == a + replace_all(x, pat, rep),
{
    let s = a + x;
    assert forall|i: int|
        0 <= i < a.len() && i + 3 < s.len() implies !(#[trigger] s[i] == pat[0] && s[i + 1] == pat[1] && s[i + 2] == pat[2]
            && s[i + 3] == pat[3]) by {
        assert(s[i] == a[i]);
        if i + 3 < a.len() {
            assert(s[i + 1] == a[i + 1] && s[i + 2] == a[i + 2] && s[i + 3] == a[i + 3]);
            assert(!(a[i] == pat[0] && a[i + 1] == pat[1] && a[i + 2] == pat[2] && a[i + 3] == pat[3]));
        }
    }
    lemma_replace_all_skip(a, x, pat, rep);
}

/// A plain stretch is left as it is by replacing either placeholder.
proof fn lemma_plain_kept(b: Seq<char>, label: Seq<char>, hex: Seq<char>)
    requires
        plain_text(b),
    ensures
        replace_all(b, LABEL_PLACEHOLDER@, label) == b,
        replace_all(b, HEX_PLACEHOLDER@, hex) == b,
        lacks_marks(b),
{
    lemma_mark_chars();
    let e = Seq::<char>::empty();
    assert(b + e =~= b);
    lemma_replace_all_skip(b, e, LABEL_PLACEHOLDER@, label);
    lemma_replace_all_skip(b, e, HEX_PLACEHOLDER@, hex);
    lemma_lacks4_not_contained(b, "hermes-ssh-footer"@, 7);
    lemma_lacks4_not_contained(b, "__hermesSetTunnelStatus"@, 8);
}

/// `a`, then `v`, then `b` holds neither footer mark when `v` holds none
/// and quotes close `a` and open `b`.
proof fn lemma_quoted_lacks_marks(a: Seq<char>, v: Seq<char>, b: Seq<char>)
    requires
        placeholder_head(a),
        placeholder_tail(b),
        lacks_marks(v),
    ensures
        lacks_marks(a + v + b),
{
    lemma_mark_chars();
    lemma_plain_kept(a, Seq::empty(), Seq::empty());
    lemma_plain_kept(b, Seq::empty(), Seq::empty());
    assert(a + v + b =~= a + (v + b));
    assert(a.last() == '\'');
    lemma_not_contained_concat(v, b, "hermes-ssh-footer"@);
    lemma_not_contained_concat(v, b, "__hermesSetTunnelStatus"@);
    lemma_not_contained_concat(a, v + b, "hermes-ssh-footer"@);
    lemma_not_contained_concat(a, v + b, "__hermesSetTunnelStatus"@);
}

/// A script stretch holding `__LABEL__` becomes, filled in, its head, the
/// label and its tail, and holds neither footer mark when the label holds
/// none (nor `__HEX__`, which the second pass would replace).
proof fn lemma_label_piece(a: Seq<char>, b: Seq<char>, label: Seq<char>, hex: Seq<char>)
    requires
        placeholder_head(a),
        placeholder_tail(b),
        !contains(label, "__HEX__"@),
        lacks_marks(label),
    ensures
        fill_placeholders(a + LABEL_PLACEHOLDER@ + b, label, hex) == a + label + b,
        lacks_marks(a + label + b),
{
    lemma_mark_chars();
    reveal_strlit("__HEX__");
    let lp = LABEL_PLACEHOLDER@;
    let hp = HEX_PLACEHOLDER@;
    assert(hp == "__HEX__"@);
    assert(a + lp + b =~= a + (lp + b));
    lemma_head_kept(a, lp + b, lp, label);
    assert((lp + b).take(9) =~= lp);
    assert((lp + b).skip(9) =~= b);
    lemma_plain_kept(b, label, hex);
    assert(replace_all(lp + b, lp, label) == label + b);
    lemma_head_kept(a, label + b, hp, hex);
    lemma_replace_all_concat(label, b, hp, hex);
    lemma_replace_all_not_contained(label, hp, hex);
    assert(a + (label + b) =~= a + label + b);
    lemma_quoted_lacks_marks(a, label, b);
}

/// A script stretch holding `__HEX__` becomes, filled in, its head, the
/// color and its tail, and holds neither footer mark when the color holds
/// none.
proof fn lemma_hex_piece(a: Seq<char>, b: Seq<char>, label: Seq<char>, hex: Seq<char>)
    requires
        placeholder_head(a),
        placeholder_tail(b),
        lacks_marks(hex),
    ensures
        fill_placeholders(a + HEX_PLACEHOLDER@ + b, label, hex) == a + hex + b,
        lacks_marks(a + hex + b),
{
    lemma_mark_chars();
    reveal_strlit("__HEX__");
    let lp = LABEL_PLACEHOLDER@;
    let hp = HEX_PLACEHOLDER@;
    assert(hp == "__HEX__"@);
    assert(a + hp + b =~= a + (hp + b));
    lemma_head_kept(a, hp + b, lp, label);
    let s = hp + b;
    assert forall|i: int|
        0 <= i < hp.len() && i + 3 < s.len() implies !(#[trigger] s[i] == lp[0] && s[i + 1] == lp[1] && s[i + 2] == lp[2]
            && s[i + 3] == lp[3]) by {
        assert(s[i] == hp[i]);
        if i + 1 < 7 {
            assert(s[i + 1] == hp[i + 1]);
        } else {
            assert(s[i + 1] == b[0]);
        }
        if i + 2 < 7 {
            assert(s[i + 2] == hp[i + 2]);
        } else {
            assert(s[i + 2] == b[i + 2 - 7]);
        }
    }
    lemma_replace_all_skip(hp, b, lp, label);
    lemma_plain_kept(b, label, hex);
    lemma_head_kept(a, hp + b, hp, hex);
    assert((hp + b).take(7) =~= hp);
    assert((hp + b).skip(7) =~= b);
    assert(replace_all(hp + b, hp, hex) == hex + b);
    assert(a + (hex + b) =~= a + hex + b);
    lemma_quoted_lacks_marks(a, hex, b);
}

/// Adding a stretch that starts a line keeps filled text free of the
/// footer marks, when the stretch filled in is free of them too.
proof fn lemma_extend(acc: Seq<char>, p: Seq<char>, label: Seq<char>, hex: Seq<char>)
    requires
        p.len() > 0,
        p[0] == '\n',
        lacks_marks(fill_placeholders(acc, label, hex)),
        lacks_marks(fill_placeholders(p, label, hex)),
    ensures
        lacks_marks(fill_placeholders(acc + p, label, hex)),
{
    lemma_mark_chars();
    lemma_fill_concat(acc, p, label, hex);
    let fa = fill_placeholders(acc, label, hex);
    let fp = fill_placeholders(p, label, hex);
    lemma_not_contained_concat(fa, fp, "hermes-ssh-footer"@);
    lemma_not_contained_concat(fa, fp, "__hermesSetTunnelStatus"@);
}

/// A plain constant stretch, filled in, is itself and holds no footer mark.
proof fn lemma_plain_piece_filled(p: Seq<char>, label: Seq<char>, hex: Seq<char>)
    requires
        plain_piece(p),
    ensures
        fill_placeholders(p, label, hex) == p,
        lacks_marks(p),
{
    lemma_plain_kept(p, label, hex);
}

/// Adding an optional stretch (present when `c`).
proof fn lemma_extend_when(acc: Seq<char>, c: bool, p: Seq<char>, label: Seq<char>, hex: Seq<char>)
    requires
        c ==> p.len() > 0 && p[0] == '\n' && lacks_marks(fill_placeholders(p, label, hex)),
        lacks_marks(fill_placeholders(acc, label, hex)),
    ensures
        lacks_marks(fill_placeholders(acc + when(c, p), label, hex)),
{
    if c {
        lemma_extend(acc, p, label, hex);
    } else {
        assert(acc + when(c, p) =~= acc);
    }
}

/// Two plain stretches joined, filled in, hold no footer mark.
proof fn lemma_plain_pair(p: Seq<char>, q: Seq<char>, label: Seq<char>, hex: Seq<char>)
    requires
        plain_piece(p),
        plain_piece(q),
    ensures
        (p + q).len() > 0 && (p + q)[0] == '\n',
        lacks_marks(fill_placeholders(p + q, label, hex)),
{
    lemma_plain_piece_filled(p, label, hex);
    lemma_plain_piece_filled(q, label, hex);
    lemma_extend(p, q, label, hex);
}

/// A plain window's initialization script holds neither the footer element's
/// id nor the tunnel status hook, when the label and color hold neither
/// (and the label holds no `__HEX__`, which filling would replace).
pub proof fn plain_script_lacks_footer(label: Seq<char>, pre_paint_hex: Seq<char>, os: TargetOs)
    requires
        !contains(label, "__HEX__"@),
        !contains(label, "hermes-ssh-footer"@),
        !contains(label, "__hermesSetTunnelStatus"@),
        !contains(pre_paint_hex, "hermes-ssh-footer"@),
        !contains(pre_paint_hex, "__hermesSetTunnelStatus"@),
    ensures
        !contains(spec_init_script(label, pre_paint_hex, false, os), "hermes-ssh-footer"@),
        !contains(spec_init_script(label, pre_paint_hex, false, os), "__hermesSetTunnelStatus"@),
{
    let l = label;
    let h = pre_paint_hex;
    let mac = os == TargetOs::MacOs;
    let ml = os == TargetOs::MacOs || os == TargetOs::Linux;
    lemma_mark_chars();
    // The opening line.
    reveal_strlit("(function () {\n");
    let w = "(function () {\n"@;
    lemma_replace_all_absent(w, LABEL_PLACEHOLDER@, l);
    lemma_replace_all_absent(w, HEX_PLACEHOLDER@, h);
    assert(fill_placeholders(w, l, h) == w);
    assert(lacks_marks(w));
    // The stretches of the body.
    lemma_text_helper();
    lemma_text_pre_paint();
    lemma_text_theme_bridge();
    lemma_text_notification_shim();
    lemma_text_speech_suppress();
    lemma_text_paste_suppress();
    lemma_text_macos_titlebar();
    lemma_text_macos_profile_reporter();
    lemma_text_shortcut_forwarder();
    lemma_text_profile_reporter();
    lemma_text_route_reporter();
    lemma_text_window_open();
    lemma_text_find_bar();
    lemma_text_download_bridge();
    lemma_label_piece(HELPER@.take(163), HELPER@.skip(172), l, h);
    lemma_hex_piece(PRE_PAINT@.take(58), PRE_PAINT@.skip(65), l, h);
    lemma_hex_piece(THEME_BRIDGE@.take(41), THEME_BRIDGE@.skip(48), l, h);
    lemma_plain_piece_filled(NOTIFICATION_SHIM@, l, h);
    lemma_plain_piece_filled(SPEECH_SUPPRESS@, l, h);
    lemma_plain_piece_filled(PASTE_SUPPRESS@, l, h);
    lemma_plain_piece_filled(ROUTE_REPORTER@, l, h);
    lemma_plain_piece_filled(WINDOW_OPEN@, l, h);
    lemma_plain_piece_filled(FIND_BAR@, l, h);
    lemma_plain_piece_filled(DOWNLOAD_BRIDGE@, l, h);
    lemma_plain_pair(MACOS_TITLEBAR@, MACOS_PROFILE_REPORTER@, l, h);
    lemma_plain_pair(SHORTCUT_FORWARDER@, PROFILE_REPORTER@, l, h);
    // Joined one after the other, as the body lists them.
    let a1 = w + HELPER@;
    lemma_extend(w, HELPER@, l, h);
    let a2 = a1 + PRE_PAINT@;
    lemma_extend(a1, PRE_PAINT@, l, h);
    let a3 = a2 + NOTIFICATION_SHIM@;
    lemma_extend(a2, NOTIFICATION_SHIM@, l, h);
    let a4 = a3 + SPEECH_SUPPRESS@;
    lemma_extend(a3, SPEECH_SUPPRESS@, l, h);
    let a5 = a4 + when(ml, PASTE_SUPPRESS@);
    lemma_extend_when(a4, ml, PASTE_SUPPRESS@, l, h);
    let a6 = a5 + when(mac, MACOS_TITLEBAR@ + MACOS_PROFILE_REPORTER@);
    lemma_extend_when(a5, mac, MACOS_TITLEBAR@ + MACOS_PROFILE_REPORTER@, l, h);
    let a7 = a6 + when(!mac, SHORTCUT_FORWARDER@ + PROFILE_REPORTER@);
    lemma_extend_when(a6, !mac, SHORTCUT_FORWARDER@ + PROFILE_REPORTER@, l, h);
    let a8 = a7 + THEME_BRIDGE@;
    lemma_extend(a7, THEME_BRIDGE@, l, h);
    let a9 = a8 + ROUTE_REPORTER@;
    lemma_extend(a8, ROUTE_REPORTER@, l, h);
    let a10 = a9 + WINDOW_OPEN@;
    lemma_extend(a9, WINDOW_OPEN@, l, h);
    let a11 = a10 + FIND_BAR@;
    lemma_extend(a10, FIND_BAR@, l, h);
    let a12 = a11 + when(ml, DOWNLOAD_BRIDGE@);
    lemma_extend_when(a11, ml, DOWNLOAD_BRIDGE@, l, h);
    let a13 = a12 + when(false, SSH_FOOTER@);
    lemma_extend_when(a12, false, SSH_FOOTER@, l, h);
    // The closing line is shorter than either placeholder and either mark.
    reveal_strlit("\n})();");
    let e = "\n})();"@;
    assert(fill_placeholders(e, l, h) == e);
    assert(lacks_marks(e));
    lemma_extend(a13, e, l, h);
    assert("(function () {\n"@ + spec_script_body(false, os) + e =~= a13 + e);
}

/// The initialization script holds the footer element's id, and the tunnel
/// status hook, exactly in ssh mode, for a label and color holding neither
/// (and a label holding no `__HEX__`).
pub proof fn script_footer_iff_ssh(label: Seq<char>, pre_paint_hex: Seq<char>, is_ssh: bool, os: TargetOs)
    requires
        !contains(label, "__HEX__"@),
        !contains(label, "hermes-ssh-footer"@),
        !contains(label, "__hermesSetTunnelStatus"@),
        !contains(pre_paint_hex, "hermes-ssh-footer"@),
        !contains(pre_paint_hex, "__hermesSetTunnelStatus"@),
    ensures
        contains(spec_init_script(label, pre_paint_hex, is_ssh, os), "hermes-ssh-footer"@) == is_ssh,
        contains(spec_init_script(label, pre_paint_hex, is_ssh, os), "__hermesSetTunnelStatus"@) == is_ssh,
{
    if is_ssh {
        ssh_script_holds_footer(label, pre_paint_hex, os);
    } else {
        plain_script_lacks_footer(label, pre_paint_hex, os);
    }
}

/// Script tinting the ssh footer (where present) with the page color `hex`.
pub fn footer_tint_script(hex: &str) -> (js: String)
    ensures
        js@ == "if (document.getElementById('hermes-ssh-footer')) document.getElementById('hermes-ssh-footer').style.background = '"@
            + hex@ + "';"@,
{
    let mut out = owned("if (document.getElementById('hermes-ssh-footer')) document.getElementById('hermes-ssh-footer').style.background = '");
    push_str(&mut out, hex);
    push_str(&mut out, "';");
    out
}

/// Notification title when the page gave none.
pub const DEFAULT_NOTIFY_TITLE: &'static str = "Hermes";

/// Notification body when the page gave none.
pub const DEFAULT_NOTIFY_BODY: &'static str = "Your response is ready";

/// An http(s) URL, the only kind handed to the system browser.
pub open spec fn spec_is_web_url(u: Seq<char>) -> bool {
    has_prefix(u, "http://"@) || has_prefix(u, "https://"@)
}

/// Whether `u` may be opened in the system browser.
pub fn is_web_url(u: &str) -> (b: bool)
    ensures
        b == spec_is_web_url(u@),
{
    let v = chars_of(u);
    let a = chars_of("http://");
    let b = chars_of("https://");
    crate::text::starts_with(&v, &a) || crate::text::starts_with(&v, &b)
}

/// A download name character made safe for a file name.
pub open spec fn safe_char(c: char) -> char {
    if c == '/' || c == '\\' || c == ':' {
        '_'
    } else {
        c
    }
}

/// The file name a download is saved under: path separators and `:` become
/// `_`, surrounding whitespace and leading dots go, and an empty result
/// becomes `download`.
pub open spec fn spec_safe_download_name(name: Seq<char>) -> Seq<char> {
    let t = strip_leading(trim(name.map_values(|c: char| safe_char(c))), '.');
    if t.len() == 0 {
        "download"@
    } else {
        t
    }
}

/// The safe file name for a download called `name`.
pub fn safe_download_name(name: &str) -> (s: String)
    ensures
        s@ == spec_safe_download_name(name@),
{
    let v = chars_of(name);
    let mut m: Vec<char> = Vec::new();
    let mut i: usize = 0;
    while i < v.len()
        invariant
            i <= v.len(),
            m@ == v@.take(i as int).map_values(|c: char| safe_char(c)),
        decreases v.len() - i,
    {
        let c = v[i];
        let d = if c == '/' || c == '\\' || c == ':' {
            '_'
        } else {
            c
        };
        m.push(d);
        assert(m@ =~= v@.take(i + 1).map_values(|c: char| safe_char(c)));
        i += 1;
    }
    assert(v@.take(i as int) =~= v@);
    let (a, b) = trim_bounds(&m);
    let mut k = a;
    assert(m@.subrange(a as int, b as int) =~= m@.subrange(k as int, b as int));
    while k < b && m[k] == '.'
        invariant
            a <= k <= b <= m.len(),
            strip_leading(m@.subrange(a as int, b as int), '.') == strip_leading(m@.subrange(k as int, b as int), '.'),
        decreases b - k,
    {
        assert(m@.subrange(k as int, b as int)[0] == m@[k as int]);
        assert(m@.subrange(k as int, b as int).drop_first() =~= m@.subrange(k + 1, b as int));
        k += 1;
    }
    proof {
        if k < b {
            assert(m@.subrange(k as int, b as int)[0] == m@[k as int]);
        }
    }
    if k == b {
        owned("download")
    } else {
        crate::text::string_of(&m, k, b)
    }
}

/// A collision-free candidate name: `stem (n).ext`, or `stem (n)` without extension.
pub fn download_candidate_name(stem: &str, counter: u64, ext: Option<&str>) -> (s: String)
    ensures
        s@ == stem@ + " ("@ + dec(counter as nat) + ")"@ + match ext {
            Some(e) => "."@ + e@,
            None => Seq::empty(),
        },
{
    let mut out = owned(stem);
    push_str(&mut out, " (");
    let d = dec_string(counter);
    push_str(&mut out, d.as_str());
    push_str(&mut out, ")");
    match ext {
        Some(e) => {
            push_str(&mut out, ".");
            push_str(&mut out, e);
        },
        None => {},
    }
    out
}

/// Index of the last `c` in `s`.
pub open spec fn last_index_of(s: Seq<char>, c: char) -> Option<int>
    decreases s.len(),
{
    if s.len() == 0 {
        None
    } else if s.last() == c {
        Some(s.len() - 1)
    } else {
        last_index_of(s.drop_last(), c)
    }
}

/// `Path::file_stem` (or `download` when the name has none) and
/// `Path::extension` of a file name holding no path separator: split at the
/// last `.`, unless that dot is the first character.
pub open spec fn spec_name_parts(f: Seq<char>) -> (Seq<char>, Option<Seq<char>>) {
    if f.len() == 0 || f == "."@ || f == ".."@ {
        ("download"@, None)
    } else {
        match last_index_of(f, '.') {
            Some(p) => if p > 0 {
                (f.take(p), Some(f.skip(p + 1)))
            } else {
                (f, None)
            },
            None => (f, None),
        }
    }
}

/// The file name a download called `name` is tried under: its safe name
/// first, then `stem (n).ext` for `n = 1, 2, …` while the name is taken.
pub open spec fn spec_download_file_name(name: Seq<char>, counter: nat) -> Seq<char> {
    let safe = spec_safe_download_name(name);
    if counter == 0 {
        safe
    } else {
        spec_name_parts(safe).0 + " ("@ + dec(counter) + ")"@ + match spec_name_parts(safe).1 {
            Some(e) => "."@ + e,
            None => Seq::empty(),
        }
    }
}

fn last_dot(v: &Vec<char>) -> (r: Option<usize>)
    ensures
        r matches Some(i) ==> i < v.len() && last_index_of(v@, '.') == Some(i as int),
        r is None ==> last_index_of(v@, '.') is None,
{
    let mut n = v.len();
    assert(v@.take(n as int) =~= v@);
    while n > 0
        invariant
            n <= v.len(),
            last_index_of(v@, '.') == last_index_of(v@.take(n as int), '.'),
        decreases n,
    {
        assert(v@.take(n as int).last() == v@[n - 1]);
        if v[n - 1] == '.' {
            return Some(n - 1);
        }
        assert(v@.take(n as int).drop_last() =~= v@.take(n - 1));
        n -= 1;
    }
    None
}

/// The `counter`-th file name tried for a download called `name`.
pub fn download_file_name(name: &str, counter: u64) -> (f: String)
    ensures
        f@ == spec_download_file_name(name@, counter as nat),
{
    let safe = safe_download_name(name);
    if counter == 0 {
        return safe;
    }
    let v = chars_of(safe.as_str());
    let is_dot = str_eq(safe.as_str(), ".");
    let is_dotdot = str_eq(safe.as_str(), "..");
    if v.len() == 0 || is_dot || is_dotdot {
        return download_candidate_name("download", counter, None);
    }
    match last_dot(&v) {
        Some(p) => {
            if p > 0 {
                let stem = string_of(&v, 0, p);
                let ext = string_of(&v, p + 1, v.len());
                assert(v@.subrange(0, p as int) =~= v@.take(p as int));
                assert(v@.subrange(p + 1, v@.len() as int) =~= v@.skip(p + 1));
                download_candidate_name(stem.as_str(), counter, Some(ext.as_str()))
            } else {
                download_candidate_name(safe.as_str(), counter, None)
            }
        },
        None => download_candidate_name(safe.as_str(), counter, None),
    }
}

proof fn lemma_last_index_in_bounds(s: Seq<char>, c: char)
    ensures
        last_index_of(s, c) matches Some(p) ==> 0 <= p < s.len() && s[p] == c,
    decreases s.len(),
{
    if s.len() > 0 && s.last() != c {
        lemma_last_index_in_bounds(s.drop_last(), c);
    }
}

/// A numbered candidate is longer than the plain safe name.
proof fn lemma_candidate_longer(name: Seq<char>, n: nat)
    requires
        n > 0,
    ensures
        spec_download_file_name(name, n).len() > spec_safe_download_name(name).len(),
{
    let safe = spec_safe_download_name(name);
    lemma_dec_len(n);
    lemma_last_index_in_bounds(safe, '.');
    reveal_strlit("download");
    reveal_strlit(".");
    reveal_strlit("..");
    reveal_strlit(" (");
    reveal_strlit(")");
    if !(safe.len() == 0 || safe == "."@ || safe == ".."@) {
        match last_index_of(safe, '.') {
            Some(p) => if p > 0 {
                assert(safe.take(p).len() + 1 + safe.skip(p + 1).len() == safe.len());
            },
            None => {},
        }
    }
}

/// The names tried for one download are all different, so trying
/// `n = 0, 1, 2, …` until a name is free never retries a taken one.
pub proof fn law_download_names_distinct(name: Seq<char>, i: nat, j: nat)
    requires
        i != j,
    ensures
        spec_download_file_name(name, i) != spec_download_file_name(name, j),
{
    if i == 0 {
        lemma_candidate_longer(name, j);
    } else if j == 0 {
        lemma_candidate_longer(name, i);
    } else {
        let safe = spec_safe_download_name(name);
        let stem = spec_name_parts(safe).0;
        let ext = match spec_name_parts(safe).1 {
            Some(e) => "."@ + e,
            None => Seq::empty(),
        };
        let a = spec_download_file_name(name, i);
        let b = spec_download_file_name(name, j);
        reveal_strlit(" (");
        reveal_strlit(")");
        assert(a == stem + " ("@ + dec(i) + ")"@ + ext);
        assert(b == stem + " ("@ + dec(j) + ")"@ + ext);
        if a == b {
            let k: int = stem.len() as int + 2;
            assert(dec(i).len() == dec(j).len());
            assert(a.subrange(k, k + dec(i).len() as int) =~= dec(i));
            assert(b.subrange(k, k + dec(j).len() as int) =~= dec(j));
            lemma_dec_injective(i, j);
        }
    }
}

/// Title of the notice after a download was saved.
pub const DOWNLOAD_DONE_TITLE: &'static str = "Download complete";

/// The body of the notice after a download was saved as `file_name`.
pub fn download_saved_body(file_name: &str) -> (body: String)
    ensures
        body@ == "Saved "@ + file_name@ + " to Downloads"@,
{
    let mut out = owned("Saved ");
    push_str(&mut out, file_name);
    push_str(&mut out, " to Downloads");
    out
}

/// A keyboard shortcut forwarded from a content page.
#[derive(Clone, Copy, Debug, PartialEq, Eq, Structural)]
pub enum ShortcutAction {
    NewTab,
    NewWindow,
    Close,
    NextTab,
    PrevTab,
    ToggleBar,
    Prefs,
    ZoomIn,
    ZoomOut,
    ZoomReset,
}

/// The action a forwarded shortcut value names, if any.
pub open spec fn spec_shortcut_action(v: Seq<char>) -> Option<ShortcutAction> {
    if v == "new-tab"@ {
        Some(ShortcutAction::NewTab)
    } else if v == "new-window"@ {
        Some(ShortcutAction::NewWindow)
    } else if v == "close"@ {
        Some(ShortcutAction::Close)
    } else if v == "next-tab"@ {
        Some(ShortcutAction::NextTab)
    } else if v == "prev-tab"@ {
        Some(ShortcutAction::PrevTab)
    } else if v == "toggle-bar"@ {
        Some(ShortcutAction::ToggleBar)
    } else if v == "prefs"@ {
        Some(ShortcutAction::Prefs)
    } else if v == "zoom-in"@ {
        Some(ShortcutAction::ZoomIn)
    } else if v == "zoom-out"@ {
        Some(ShortcutAction::ZoomOut)
    } else if v == "zoom-reset"@ {
        Some(ShortcutAction::ZoomReset)
    } else {
        None
    }
}

/// Decode a forwarded shortcut.
pub fn shortcut_action(v: &str) -> (a: Option<ShortcutAction>)
    ensures
        a == spec_shortcut_action(v@),
{
    if str_eq(v, "new-tab") {
        Some(ShortcutAction::NewTab)
    } else if str_eq(v, "new-window") {
        Some(ShortcutAction::NewWindow)
    } else if str_eq(v, "close") {
        Some(ShortcutAction::Close)
    } else if str_eq(v, "next-tab") {
        Some(ShortcutAction::NextTab)
    } else if str_eq(v, "prev-tab") {
        Some(ShortcutAction::PrevTab)
    } else if str_eq(v, "toggle-bar") {
        Some(ShortcutAction::ToggleBar)
    } else if str_eq(v, "prefs") {
        Some(ShortcutAction::Prefs)
    } else if str_eq(v, "zoom-in") {
        Some(ShortcutAction::ZoomIn)
    } else if str_eq(v, "zoom-out") {
        Some(ShortcutAction::ZoomOut)
    } else if str_eq(v, "zoom-reset") {
        Some(ShortcutAction::ZoomReset)
    } else {
        None
    }
}

// The texts of the script constants, as the laws on the assembled script
// need them. Verus learns what a string constant holds only from its
// literal, so each lemma below repeats one constant's text and checks that
// it is the constant.

/// What `NOTIFICATION_SHIM` holds: a plain stretch of script starting a line.
proof fn lemma_text_notification_shim()
    ensures
        plain_piece(NOTIFICATION_SHIM@),
{
    reveal_strlit(r##"
  (function () {
    try {
      function HermesNotification(title, opts) {
        opts = opts || {};
        try {
          EMIT('notify', {
            title: String(title == null ? 'Hermes' : title),
            body: String(opts.body || '')
          });
        } catch (e) {}
        this.title = title;
        this.body = opts.body || '';
        this.onclick = null;
        this.onclose = null;
        this.onerror = null;
        this.onshow = null;
      }
      HermesNotification.permission = 'granted';
      HermesNotification.requestPermission = function (cb) {
        if (typeof cb === 'function') cb('granted');
        return Promise.resolve('granted');
      };
      HermesNotification.prototype.close = function () {};
      HermesNotification.prototype.addEventListener = function () {};
      HermesNotification.prototype.removeEventListener = function () {};
      HermesNotification.prototype.dispatchEvent = function () { return false; };
      try {
        Object.defineProperty(window, 'Notification', {
          value: HermesNotification, writable: true, configurable: true
        });
      } catch (e) {
        window.Notification = HermesNotification;
      }
      // The WebUI prefers ServiceWorkerRegistration.showNotification when a SW
      // is active and only falls back to `new Notification` if that REJECTS.
      // In an embedded webview the SW path can resolve but display nothing,
      // swallowing the notification before it reaches the shim above. Route it
      // through the bridge too so SW-first notifications still fire natively.
      try {
        if (window.ServiceWorkerRegistration && ServiceWorkerRegistration.prototype) {
          ServiceWorkerRegistration.prototype.showNotification = function (title, opts) {
            opts = opts || {};
            try {
              EMIT('notify', {
                title: String(title == null ? 'Hermes' : title),
                body: String(opts.body || '')
              });
            } catch (e) {}
            return Promise.resolve();
          };
        }
      } catch (e) {}
    } catch (e) {}
  })();
"##);
    assert(NOTIFICATION_SHIM@ == r##"
  (function () {
    try {
      function HermesNotification(title, opts) {
        opts = opts || {};
        try {
          EMIT('notify', {
            title: String(title == null ? 'Hermes' : title),
            body: String(opts.body || '')
          });
        } catch (e) {}
        this.title = title;
        this.body = opts.body || '';
        this.onclick = null;
        this.onclose = null;
        this.onerror = null;
        this.onshow = null;
      }
      HermesNotification.permission = 'granted';
      HermesNotification.requestPermission = function (cb) {
        if (typeof cb === 'function') cb('granted');
        return Promise.resolve('granted');
      };
      HermesNotification.prototype.close = function () {};
      HermesNotification.prototype.addEventListener = function () {};
      HermesNotification.prototype.removeEventListener = function () {};
      HermesNotification.prototype.dispatchEvent = function () { return false; };
      try {
        Object.defineProperty(window, 'Notification', {
          value: HermesNotification, writable: true, configurable: true
        });
      } catch (e) {
        window.Notification = HermesNotification;
      }
      // The WebUI prefers ServiceWorkerRegistration.showNotification when a SW
      // is active and only falls back to `new Notification` if that REJECTS.
      // In an embedded webview the SW path can resolve but display nothing,
      // swallowing the notification before it reaches the shim above. Route it
      // through the bridge too so SW-first notifications still fire natively.
      try {
        if (window.ServiceWorkerRegistration && ServiceWorkerRegistration.prototype) {
          ServiceWorkerRegistration.prototype.showNotification = function (title, opts) {
            opts = opts || {};
            try {
              EMIT('notify', {
                title: String(title == null ? 'Hermes' : title),
                body: String(opts.body || '')
              });
            } catch (e) {}
            return Promise.resolve();
          };
        }
      } catch (e) {}
    } catch (e) {}
  })();
"##@);
}

/// What `SPEECH_SUPPRESS` holds: a plain stretch of script starting a line.
proof fn lemma_text_speech_suppress()
    ensures
        plain_piece(SPEECH_SUPPRESS@),
{
    reveal_strlit(r##"
  try {
    window.SpeechRecognition = undefined;
    window.webkitSpeechRecognition = undefined;
  } catch (e) {}
"##);
    assert(SPEECH_SUPPRESS@ == r##"
  try {
    window.SpeechRecognition = undefined;
    window.webkitSpeechRecognition = undefined;
  } catch (e) {}
"##@);
}

/// What `PASTE_SUPPRESS` holds: a plain stretch of script starting a line.
proof fn lemma_text_paste_suppress()
    ensures
        plain_piece(PASTE_SUPPRESS@),
{
    reveal_strlit(r##"
  try {
    document.addEventListener('paste', function (e) { e.stopImmediatePropagation(); }, true);
  } catch (e) {}
"##);
    assert(PASTE_SUPPRESS@ == r##"
  try {
    document.addEventListener('paste', function (e) { e.stopImmediatePropagation(); }, true);
  } catch (e) {}
"##@);
}

/// What `MACOS_TITLEBAR` holds: a plain stretch of script starting a line.
proof fn lemma_text_macos_titlebar()
    ensures
        plain_piece(MACOS_TITLEBAR@),
{
    reveal_strlit(r##"
  try { document.documentElement.style.setProperty('--traffic-light-width', '80px'); } catch (e) {}
  (function () {
    try {
      var s = document.createElement('style');
      s.textContent =
        '.app-titlebar-icon { visibility: hidden !important; } ' +
        'body.hermes-mac-tabbed .app-titlebar { display: none !important; }';
      (document.head || document.documentElement).appendChild(s);
    } catch (e) {}
  })();
  (function () {
    var attach = function () {
      try {
        var tb = document.querySelector('.app-titlebar');
        if (tb && tb.getAttribute('data-tauri-drag-region') !== 'deep')
          tb.setAttribute('data-tauri-drag-region', 'deep');
      } catch (e) {}
    };
    if (document.readyState === 'loading') document.addEventListener('DOMContentLoaded', attach);
    else attach();
    setInterval(attach, 3000);
  })();
"##);
    assert(MACOS_TITLEBAR@ == r##"
  try { document.documentElement.style.setProperty('--traffic-light-width', '80px'); } catch (e) {}
  (function () {
    try {
      var s = document.createElement('style');
      s.textContent =
        '.app-titlebar-icon { visibility: hidden !important; } ' +
        'body.hermes-mac-tabbed .app-titlebar { display: none !important; }';
      (document.head || document.documentElement).appendChild(s);
    } catch (e) {}
  })();
  (function () {
    var attach = function () {
      try {
        var tb = document.querySelector('.app-titlebar');
        if (tb && tb.getAttribute('data-tauri-drag-region') !== 'deep')
          tb.setAttribute('data-tauri-drag-region', 'deep');
      } catch (e) {}
    };
    if (document.readyState === 'loading') document.addEventListener('DOMContentLoaded', attach);
    else attach();
    setInterval(attach, 3000);
  })();
"##@);
}

/// What `MACOS_PROFILE_REPORTER` holds: a plain stretch of script starting a line.
proof fn lemma_text_macos_profile_reporter()
    ensures
        plain_piece(MACOS_PROFILE_REPORTER@),
{
    reveal_strlit(r##"
  (function () {
    var last = null;
    var report = function () {
      try {
        fetch('/api/profile/active', { credentials: 'same-origin', cache: 'no-store' })
          .then(function (r) { return r.ok ? r.json() : null; })
          .then(function (p) {
            if (!p) return;
            var name = p.is_default ? '' : (p.name || '');
            if (name !== last) { last = name; EMIT('mac-profile', name); }
          })
          .catch(function () {});
      } catch (e) {}
    };
    var wrap = function (n) {
      try {
        var orig = history[n];
        if (typeof orig === 'function') {
          history[n] = function () { var r = orig.apply(this, arguments); report(); return r; };
        }
      } catch (e) {}
    };
    wrap('pushState'); wrap('replaceState');
    window.addEventListener('popstate', report);
    window.addEventListener('hashchange', report);
    if (document.readyState === 'loading') document.addEventListener('DOMContentLoaded', report);
    else report();
    setInterval(report, 3000);
    window.addEventListener('focus', report);
  })();
"##);
    assert(MACOS_PROFILE_REPORTER@ == r##"
  (function () {
    var last = null;
    var report = function () {
      try {
        fetch('/api/profile/active', { credentials: 'same-origin', cache: 'no-store' })
          .then(function (r) { return r.ok ? r.json() : null; })
          .then(function (p) {
            if (!p) return;
            var name = p.is_default ? '' : (p.name || '');
            if (name !== last) { last = name; EMIT('mac-profile', name); }
          })
          .catch(function () {});
      } catch (e) {}
    };
    var wrap = function (n) {
      try {
        var orig = history[n];
        if (typeof orig === 'function') {
          history[n] = function () { var r = orig.apply(this, arguments); report(); return r; };
        }
      } catch (e) {}
    };
    wrap('pushState'); wrap('replaceState');
    window.addEventListener('popstate', report);
    window.addEventListener('hashchange', report);
    if (document.readyState === 'loading') document.addEventListener('DOMContentLoaded', report);
    else report();
    setInterval(report, 3000);
    window.addEventListener('focus', report);
  })();
"##@);
}

/// What `SHORTCUT_FORWARDER` holds: a plain stretch of script starting a line.
proof fn lemma_text_shortcut_forwarder()
    ensures
        plain_piece(SHORTCUT_FORWARDER@),
{
    reveal_strlit(r##"
  document.addEventListener('keydown', function (e) {
    if (!e.ctrlKey || e.altKey || e.metaKey) return;
    var k = (e.key || '').toLowerCase();
    var send = function (v) { e.preventDefault(); e.stopPropagation(); EMIT('shortcut', v); };
    if (k === 'tab') { send(e.shiftKey ? 'prev-tab' : 'next-tab'); return; }
    if (k === 'b' && e.shiftKey) { send('toggle-bar'); return; }
    if (e.shiftKey) return;
    if (k === 't') send('new-tab');
    else if (k === 'n') send('new-window');
    else if (k === 'w') send('close');
    else if (k === 'r') { e.preventDefault(); e.stopPropagation(); location.reload(); }
    else if (k === ',') send('prefs');
    else if (k === '=' || k === '+') send('zoom-in');
    else if (k === '-') send('zoom-out');
    else if (k === '0') send('zoom-reset');
  }, true);
"##);
    assert(SHORTCUT_FORWARDER@ == r##"
  document.addEventListener('keydown', function (e) {
    if (!e.ctrlKey || e.altKey || e.metaKey) return;
    var k = (e.key || '').toLowerCase();
    var send = function (v) { e.preventDefault(); e.stopPropagation(); EMIT('shortcut', v); };
    if (k === 'tab') { send(e.shiftKey ? 'prev-tab' : 'next-tab'); return; }
    if (k === 'b' && e.shiftKey) { send('toggle-bar'); return; }
    if (e.shiftKey) return;
    if (k === 't') send('new-tab');
    else if (k === 'n') send('new-window');
    else if (k === 'w') send('close');
    else if (k === 'r') { e.preventDefault(); e.stopPropagation(); location.reload(); }
    else if (k === ',') send('prefs');
    else if (k === '=' || k === '+') send('zoom-in');
    else if (k === '-') send('zoom-out');
    else if (k === '0') send('zoom-reset');
  }, true);
"##@);
}

/// What `PROFILE_REPORTER` holds: a plain stretch of script starting a line.
proof fn lemma_text_profile_reporter()
    ensures
        plain_piece(PROFILE_REPORTER@),
{
    reveal_strlit(r##"
  (function () {
    var last = null;
    var report = function () {
      try {
        fetch('/api/profile/active', { credentials: 'same-origin', cache: 'no-store' })
          .then(function (r) { return r.ok ? r.json() : null; })
          .then(function (p) {
            if (!p) return;
            var name = p.name || '';
            if (name !== last) { last = name; EMIT('profile', name); }
          })
          .catch(function () {});
      } catch (e) {}
    };
    var wrap = function (n) {
      try {
        var orig = history[n];
        if (typeof orig === 'function') {
          history[n] = function () { var r = orig.apply(this, arguments); report(); return r; };
        }
      } catch (e) {}
    };
    wrap('pushState'); wrap('replaceState');
    window.addEventListener('popstate', report);
    window.addEventListener('hashchange', report);
    if (document.readyState === 'loading') document.addEventListener('DOMContentLoaded', report);
    else report();
    setInterval(report, 3000);
    window.addEventListener('focus', report);
  })();
"##);
    assert(PROFILE_REPORTER@ == r##"
  (function () {
    var last = null;
    var report = function () {
      try {
        fetch('/api/profile/active', { credentials: 'same-origin', cache: 'no-store' })
          .then(function (r) { return r.ok ? r.json() : null; })
          .then(function (p) {
            if (!p) return;
            var name = p.name || '';
            if (name !== last) { last = name; EMIT('profile', name); }
          })
          .catch(function () {});
      } catch (e) {}
    };
    var wrap = function (n) {
      try {
        var orig = history[n];
        if (typeof orig === 'function') {
          history[n] = function () { var r = orig.apply(this, arguments); report(); return r; };
        }
      } catch (e) {}
    };
    wrap('pushState'); wrap('replaceState');
    window.addEventListener('popstate', report);
    window.addEventListener('hashchange', report);
    if (document.readyState === 'loading') document.addEventListener('DOMContentLoaded', report);
    else report();
    setInterval(report, 3000);
    window.addEventListener('focus', report);
  })();
"##@);
}

/// What `ROUTE_REPORTER` holds: a plain stretch of script starting a line.
proof fn lemma_text_route_reporter()
    ensures
        plain_piece(ROUTE_REPORTER@),
{
    reveal_strlit(r##"
  (function () {
    var last = '';
    var report = function () {
      try {
        var h = location.href;
        if (h && h !== last) { last = h; EMIT('route', h); }
      } catch (e) {}
    };
    var wrap = function (name) {
      try {
        var orig = history[name];
        if (typeof orig === 'function') {
          history[name] = function () { var r = orig.apply(this, arguments); report(); return r; };
        }
      } catch (e) {}
    };
    wrap('pushState'); wrap('replaceState');
    window.addEventListener('popstate', report);
    window.addEventListener('hashchange', report);
    if (document.readyState === 'loading') document.addEventListener('DOMContentLoaded', report);
    else report();
    setInterval(report, 2000);
  })();
"##);
    assert(ROUTE_REPORTER@ == r##"
  (function () {
    var last = '';
    var report = function () {
      try {
        var h = location.href;
        if (h && h !== last) { last = h; EMIT('route', h); }
      } catch (e) {}
    };
    var wrap = function (name) {
      try {
        var orig = history[name];
        if (typeof orig === 'function') {
          history[name] = function () { var r = orig.apply(this, arguments); report(); return r; };
        }
      } catch (e) {}
    };
    wrap('pushState'); wrap('replaceState');
    window.addEventListener('popstate', report);
    window.addEventListener('hashchange', report);
    if (document.readyState === 'loading') document.addEventListener('DOMContentLoaded', report);
    else report();
    setInterval(report, 2000);
  })();
"##@);
}

/// What `WINDOW_OPEN` holds: a plain stretch of script starting a line.
proof fn lemma_text_window_open()
    ensures
        plain_piece(WINDOW_OPEN@),
{
    reveal_strlit(r##"
  (function () {
    window.open = function (u) {
      if (!u) return null;
      try {
        var x = new URL(String(u), location.href);
        if (x.protocol === 'http:' || x.protocol === 'https:') location.href = x.href;
      } catch (e) {}
      return null;
    };
    document.addEventListener('click', function (e) {
      var a = e.target && e.target.closest ? e.target.closest('a[target="_blank"]') : null;
      if (!a || !a.href) return;
      if (a.protocol !== 'http:' && a.protocol !== 'https:') return;
      e.preventDefault();
      e.stopPropagation();
      location.href = a.href;
    }, true);
  })();
"##);
    assert(WINDOW_OPEN@ == r##"
  (function () {
    window.open = function (u) {
      if (!u) return null;
      try {
        var x = new URL(String(u), location.href);
        if (x.protocol === 'http:' || x.protocol === 'https:') location.href = x.href;
      } catch (e) {}
      return null;
    };
    document.addEventListener('click', function (e) {
      var a = e.target && e.target.closest ? e.target.closest('a[target="_blank"]') : null;
      if (!a || !a.href) return;
      if (a.protocol !== 'http:' && a.protocol !== 'https:') return;
      e.preventDefault();
      e.stopPropagation();
      location.href = a.href;
    }, true);
  })();
"##@);
}

/// What `FIND_BAR` holds: a plain stretch of script starting a line.
proof fn lemma_text_find_bar()
    ensures
        plain_piece(FIND_BAR@),
{
    reveal_strlit(r##"
  (function () {
    var bar = null, input = null, visible = false;
    function build() {
      if (bar) return;
      var s = document.createElement('style');
      s.textContent =
        '#hermes-find{position:fixed;top:46px;right:18px;z-index:2147483647;display:none;align-items:center;gap:6px;padding:6px 8px;border-radius:8px;background:rgba(40,40,42,0.94);box-shadow:0 4px 18px rgba(0,0,0,0.35);font:12px -apple-system,system-ui,sans-serif;color:#eee;}' +
        '#hermes-find input{width:200px;font:12px -apple-system,system-ui,sans-serif;padding:3px 7px;border-radius:5px;border:1px solid rgba(255,255,255,0.2);background:rgba(0,0,0,0.3);color:#fff;outline:none;}' +
        '#hermes-find button{font:12px -apple-system,system-ui,sans-serif;padding:2px 8px;border-radius:5px;border:1px solid rgba(255,255,255,0.2);background:transparent;color:#eee;cursor:pointer;}';
      (document.head || document.documentElement).appendChild(s);
      bar = document.createElement('div');
      bar.id = 'hermes-find';
      bar.innerHTML = '<input placeholder="Find in page…"><button data-d="p">‹</button><button data-d="n">›</button><button data-d="x">Done</button>';
      document.body.appendChild(bar);
      input = bar.querySelector('input');
      input.addEventListener('keydown', function (e) {
        if (e.key === 'Enter') { e.preventDefault(); find(!e.shiftKey); }
        else if (e.key === 'Escape') { hide(); }
        e.stopPropagation();
      });
      bar.querySelector('[data-d="p"]').addEventListener('click', function () { find(false); });
      bar.querySelector('[data-d="n"]').addEventListener('click', function () { find(true); });
      bar.querySelector('[data-d="x"]').addEventListener('click', hide);
    }
    function find(forward) {
      var q = input && input.value;
      if (!q) return;
      try { window.find(q, false, !forward, true, false, true, false); } catch (e) {}
    }
    function show() { build(); bar.style.display = 'flex'; visible = true; input.focus(); input.select(); }
    function hide() { if (bar) bar.style.display = 'none'; visible = false; try { input && input.blur(); } catch (e) {} }
    function toggle() { if (visible) hide(); else show(); }
    window.__hermesFindToggle = toggle;
    window.__hermesFindNext = function (forward) { if (!visible) { show(); return; } find(forward); };
    document.addEventListener('keydown', function (e) {
      var mod = e.metaKey || e.ctrlKey;
      if (mod && !e.shiftKey && !e.altKey && (e.key === 'f' || e.key === 'F')) {
        e.preventDefault(); e.stopPropagation(); toggle();
      } else if (mod && !e.altKey && (e.key === 'g' || e.key === 'G')) {
        e.preventDefault(); e.stopPropagation(); window.__hermesFindNext(!e.shiftKey);
      } else if (e.key === 'Escape' && visible) {
        hide();
      }
    }, true);
  })();
"##);
    assert(FIND_BAR@ == r##"
  (function () {
    var bar = null, input = null, visible = false;
    function build() {
      if (bar) return;
      var s = document.createElement('style');
      s.textContent =
        '#hermes-find{position:fixed;top:46px;right:18px;z-index:2147483647;display:none;align-items:center;gap:6px;padding:6px 8px;border-radius:8px;background:rgba(40,40,42,0.94);box-shadow:0 4px 18px rgba(0,0,0,0.35);font:12px -apple-system,system-ui,sans-serif;color:#eee;}' +
        '#hermes-find input{width:200px;font:12px -apple-system,system-ui,sans-serif;padding:3px 7px;border-radius:5px;border:1px solid rgba(255,255,255,0.2);background:rgba(0,0,0,0.3);color:#fff;outline:none;}' +
        '#hermes-find button{font:12px -apple-system,system-ui,sans-serif;padding:2px 8px;border-radius:5px;border:1px solid rgba(255,255,255,0.2);background:transparent;color:#eee;cursor:pointer;}';
      (document.head || document.documentElement).appendChild(s);
      bar = document.createElement('div');
      bar.id = 'hermes-find';
      bar.innerHTML = '<input placeholder="Find in page…"><button data-d="p">‹</button><button data-d="n">›</button><button data-d="x">Done</button>';
      document.body.appendChild(bar);
      input = bar.querySelector('input');
      input.addEventListener('keydown', function (e) {
        if (e.key === 'Enter') { e.preventDefault(); find(!e.shiftKey); }
        else if (e.key === 'Escape') { hide(); }
        e.stopPropagation();
      });
      bar.querySelector('[data-d="p"]').addEventListener('click', function () { find(false); });
      bar.querySelector('[data-d="n"]').addEventListener('click', function () { find(true); });
      bar.querySelector('[data-d="x"]').addEventListener('click', hide);
    }
    function find(forward) {
      var q = input && input.value;
      if (!q) return;
      try { window.find(q, false, !forward, true, false, true, false); } catch (e) {}
    }
    function show() { build(); bar.style.display = 'flex'; visible = true; input.focus(); input.select(); }
    function hide() { if (bar) bar.style.display = 'none'; visible = false; try { input && input.blur(); } catch (e) {} }
    function toggle() { if (visible) hide(); else show(); }
    window.__hermesFindToggle = toggle;
    window.__hermesFindNext = function (forward) { if (!visible) { show(); return; } find(forward); };
    document.addEventListener('keydown', function (e) {
      var mod = e.metaKey || e.ctrlKey;
      if (mod && !e.shiftKey && !e.altKey && (e.key === 'f' || e.key === 'F')) {
        e.preventDefault(); e.stopPropagation(); toggle();
      } else if (mod && !e.altKey && (e.key === 'g' || e.key === 'G')) {
        e.preventDefault(); e.stopPropagation(); window.__hermesFindNext(!e.shiftKey);
      } else if (e.key === 'Escape' && visible) {
        hide();
      }
    }, true);
  })();
"##@);
}

/// What `DOWNLOAD_BRIDGE` holds: a plain stretch of script starting a line.
proof fn lemma_text_download_bridge()
    ensures
        plain_piece(DOWNLOAD_BRIDGE@),
{
    reveal_strlit(r##"
  document.addEventListener('click', function (e) {
    var a = e.target && e.target.closest ? e.target.closest('a[download], a[href^="blob:"]') : null;
    if (!a) return;
    var href = a.getAttribute('href') || '';
    if (!href || href === '#') return;
    e.preventDefault();
    e.stopPropagation();
    var name = a.getAttribute('download');
    if (!name) {
      try { name = new URL(href, location.href).pathname.split('/').pop(); } catch (err) {}
    }
    name = name || 'download';
    fetch(href)
      .then(function (r) { return r.blob(); })
      .then(function (b) {
        if (b.size > 30 * 1024 * 1024) {
          EMIT('download-too-big', { name: name, size: b.size });
          return;
        }
        var fr = new FileReader();
        fr.onload = function () {
          var data = String(fr.result);
          EMIT('download', { name: name, data: data.slice(data.indexOf(',') + 1) });
        };
        fr.readAsDataURL(b);
      })
      .catch(function () {});
  }, true);
"##);
    assert(DOWNLOAD_BRIDGE@ == r##"
  document.addEventListener('click', function (e) {
    var a = e.target && e.target.closest ? e.target.closest('a[download], a[href^="blob:"]') : null;
    if (!a) return;
    var href = a.getAttribute('href') || '';
    if (!href || href === '#') return;
    e.preventDefault();
    e.stopPropagation();
    var name = a.getAttribute('download');
    if (!name) {
      try { name = new URL(href, location.href).pathname.split('/').pop(); } catch (err) {}
    }
    name = name || 'download';
    fetch(href)
      .then(function (r) { return r.blob(); })
      .then(function (b) {
        if (b.size > 30 * 1024 * 1024) {
          EMIT('download-too-big', { name: name, size: b.size });
          return;
        }
        var fr = new FileReader();
        fr.onload = function () {
          var data = String(fr.result);
          EMIT('download', { name: name, data: data.slice(data.indexOf(',') + 1) });
        };
        fr.readAsDataURL(b);
      })
      .catch(function () {});
  }, true);
"##@);
}

/// What `HELPER` holds: a plain stretch, the placeholder `__LABEL__`, and a
/// plain stretch again.
proof fn lemma_text_helper()
    ensures
        HELPER@.len() == 236,
        HELPER@ == HELPER@.take(163) + LABEL_PLACEHOLDER@ + HELPER@.skip(172),
        placeholder_head(HELPER@.take(163)),
        placeholder_tail(HELPER@.skip(172)),
{
    reveal_strlit(r##"
  const EMIT = function (kind, value) {
    try {
      if (window.__TAURI__ && window.__TAURI__.event) {
        window.__TAURI__.event.emit('bridge', { label: '__LABEL__', kind: kind, value: value });
      }
    } catch (e) {}
  };
"##);
    reveal_strlit("__LABEL__");
    assert(HELPER@ == r##"
  const EMIT = function (kind, value) {
    try {
      if (window.__TAURI__ && window.__TAURI__.event) {
        window.__TAURI__.event.emit('bridge', { label: '__LABEL__', kind: kind, value: value });
      }
    } catch (e) {}
  };
"##@);
    assert(HELPER@ =~= HELPER@.take(163) + LABEL_PLACEHOLDER@ + HELPER@.skip(172));
}

/// What `PRE_PAINT` holds: a plain stretch, the placeholder `__HEX__`, and a
/// plain stretch again.
proof fn lemma_text_pre_paint()
    ensures
        PRE_PAINT@.len() == 263,
        PRE_PAINT@ == PRE_PAINT@.take(58) + HEX_PLACEHOLDER@ + PRE_PAINT@.skip(65),
        placeholder_head(PRE_PAINT@.take(58)),
        placeholder_tail(PRE_PAINT@.skip(65)),
{
    reveal_strlit(r##"
  try {
    document.documentElement.style.background = '__HEX__';
    var __ppb = function(){ if (document.body) document.body.style.background = ''; };
    // body background left to the page once it loads; documentElement holds the backstop.
  } catch (e) {}
"##);
    reveal_strlit("__HEX__");
    assert(PRE_PAINT@ == r##"
  try {
    document.documentElement.style.background = '__HEX__';
    var __ppb = function(){ if (document.body) document.body.style.background = ''; };
    // body background left to the page once it loads; documentElement holds the backstop.
  } catch (e) {}
"##@);
    assert(PRE_PAINT@ =~= PRE_PAINT@.take(58) + HEX_PLACEHOLDER@ + PRE_PAINT@.skip(65));
}

/// What `THEME_BRIDGE` holds: a plain stretch, the placeholder `__HEX__`, and a
/// plain stretch again.
#[verifier::spinoff_prover]
#[verifier::rlimit(100)]
proof fn lemma_text_theme_bridge()
    ensures
        THEME_BRIDGE@.len() == 3461,
        THEME_BRIDGE@ == THEME_BRIDGE@.take(41) + HEX_PLACEHOLDER@ + THEME_BRIDGE@.skip(48),
        placeholder_head(THEME_BRIDGE@.take(41)),
        placeholder_tail(THEME_BRIDGE@.skip(48)),
{
    reveal_strlit(r##"
  (function () {
    const cachedHex = '__HEX__'.toUpperCase();
    let lastReportedHex = null;
    const isOpaque = (c) => c && c !== 'transparent' && c !== 'rgba(0, 0, 0, 0)';
    function rgbStringToHex(s) {
      const m = s.match(/^rgba?\((\d+)\D+(\d+)\D+(\d+)/);
      if (!m) return s.toUpperCase();
      return '#' + [m[1], m[2], m[3]].map(function (n) {
        return parseInt(n, 10).toString(16).padStart(2, '0').toUpperCase();
      }).join('');
    }
    function effectiveBackgroundAt(x, y) {
      if (!document.elementsFromPoint) return null;
      const els = document.elementsFromPoint(x, y);
      for (const el of els) {
        const bg = getComputedStyle(el).backgroundColor;
        if (isOpaque(bg)) return bg;
      }
      return null;
    }
    function themeColorMetaBackground() {
      const meta = document.getElementById('hermes-theme-color');
      if (!meta) return null;
      const content = (meta.getAttribute('content') || '').trim();
      if (!content) return null;
      if (!/^#[0-9a-fA-F]{3}([0-9a-fA-F]{3})?$|^rgba?\(/.test(content)) return null;
      return content;
    }
    function effectiveBackground() {
      const meta = themeColorMetaBackground();
      if (meta) return meta;
      const w = window.innerWidth || 1280;
      const h = window.innerHeight || 800;
      const points = [[w >> 1, h >> 1], [w >> 1, h >> 2], [w >> 2, h >> 1]];
      for (const [x, y] of points) {
        const bg = effectiveBackgroundAt(x, y);
        if (bg) return bg;
      }
      const bodyBg = document.body ? getComputedStyle(document.body).backgroundColor : null;
      if (isOpaque(bodyBg)) return bodyBg;
      return getComputedStyle(document.documentElement).backgroundColor;
    }
    const STABILITY_MS = 2500;
    let pendingHex = null;
    let pendingTimer = null;
    function report() {
      const bg = effectiveBackground();
      if (!bg) return;
      const hex = rgbStringToHex(bg);
      const currentChromeHex = lastReportedHex || cachedHex;
      if (hex === currentChromeHex) {
        pendingHex = null;
        clearTimeout(pendingTimer);
        return;
      }
      if (hex === pendingHex) return;
      pendingHex = hex;
      clearTimeout(pendingTimer);
      pendingTimer = setTimeout(function () {
        if (pendingHex === hex) {
          lastReportedHex = hex;
          EMIT('theme', bg);
        }
      }, STABILITY_MS);
    }
    const observer = new MutationObserver(() => requestAnimationFrame(report));
    function start() {
      report();
      observer.observe(document.documentElement, {
        attributes: true,
        attributeFilter: ['class', 'data-theme', 'style', 'data-mode']
      });
      if (document.body) {
        observer.observe(document.body, {
          attributes: true,
          attributeFilter: ['class', 'data-theme', 'style', 'data-mode']
        });
      }
      const themeMeta = document.getElementById('hermes-theme-color');
      if (themeMeta) {
        observer.observe(themeMeta, { attributes: true, attributeFilter: ['content'] });
      }
      setInterval(report, 2000);
    }
    if (document.readyState === 'loading') document.addEventListener('DOMContentLoaded', start);
    else start();
    window.addEventListener('focus', report);
    const mq = window.matchMedia('(prefers-color-scheme: dark)');
    if (mq.addEventListener) mq.addEventListener('change', report);
    else if (mq.addListener) mq.addListener(report);
  })();
"##);
    reveal_strlit("__HEX__");
    assert(THEME_BRIDGE@ == r##"
  (function () {
    const cachedHex = '__HEX__'.toUpperCase();
    let lastReportedHex = null;
    const isOpaque = (c) => c && c !== 'transparent' && c !== 'rgba(0, 0, 0, 0)';
    function rgbStringToHex(s) {
      const m = s.match(/^rgba?\((\d+)\D+(\d+)\D+(\d+)/);
      if (!m) return s.toUpperCase();
      return '#' + [m[1], m[2], m[3]].map(function (n) {
        return parseInt(n, 10).toString(16).padStart(2, '0').toUpperCase();
      }).join('');
    }
    function effectiveBackgroundAt(x, y) {
      if (!document.elementsFromPoint) return null;
      const els = document.elementsFromPoint(x, y);
      for (const el of els) {
        const bg = getComputedStyle(el).backgroundColor;
        if (isOpaque(bg)) return bg;
      }
      return null;
    }
    function themeColorMetaBackground() {
      const meta = document.getElementById('hermes-theme-color');
      if (!meta) return null;
      const content = (meta.getAttribute('content') || '').trim();
      if (!content) return null;
      if (!/^#[0-9a-fA-F]{3}([0-9a-fA-F]{3})?$|^rgba?\(/.test(content)) return null;
      return content;
    }
    function effectiveBackground() {
      const meta = themeColorMetaBackground();
      if (meta) return meta;
      const w = window.innerWidth || 1280;
      const h = window.innerHeight || 800;
      const points = [[w >> 1, h >> 1], [w >> 1, h >> 2], [w >> 2, h >> 1]];
      for (const [x, y] of points) {
        const bg = effectiveBackgroundAt(x, y);
        if (bg) return bg;
      }
      const bodyBg = document.body ? getComputedStyle(document.body).backgroundColor : null;
      if (isOpaque(bodyBg)) return bodyBg;
      return getComputedStyle(document.documentElement).backgroundColor;
    }
    const STABILITY_MS = 2500;
    let pendingHex = null;
    let pendingTimer = null;
    function report() {
      const bg = effectiveBackground();
      if (!bg) return;
      const hex = rgbStringToHex(bg);
      const currentChromeHex = lastReportedHex || cachedHex;
      if (hex === currentChromeHex) {
        pendingHex = null;
        clearTimeout(pendingTimer);
        return;
      }
      if (hex === pendingHex) return;
      pendingHex = hex;
      clearTimeout(pendingTimer);
      pendingTimer = setTimeout(function () {
        if (pendingHex === hex) {
          lastReportedHex = hex;
          EMIT('theme', bg);
        }
      }, STABILITY_MS);
    }
    const observer = new MutationObserver(() => requestAnimationFrame(report));
    function start() {
      report();
      observer.observe(document.documentElement, {
        attributes: true,
        attributeFilter: ['class', 'data-theme', 'style', 'data-mode']
      });
      if (document.body) {
        observer.observe(document.body, {
          attributes: true,
          attributeFilter: ['class', 'data-theme', 'style', 'data-mode']
        });
      }
      const themeMeta = document.getElementById('hermes-theme-color');
      if (themeMeta) {
        observer.observe(themeMeta, { attributes: true, attributeFilter: ['content'] });
      }
      setInterval(report, 2000);
    }
    if (document.readyState === 'loading') document.addEventListener('DOMContentLoaded', start);
    else start();
    window.addEventListener('focus', report);
    const mq = window.matchMedia('(prefers-color-scheme: dark)');
    if (mq.addEventListener) mq.addEventListener('change', report);
    else if (mq.addListener) mq.addListener(report);
  })();
"##@);
    assert(THEME_BRIDGE@ =~= THEME_BRIDGE@.take(41) + HEX_PLACEHOLDER@ + THEME_BRIDGE@.skip(48));
}

} // verus!
