//! The window handle and its lifecycle.
//!
//! A window is identified by a small integer the bridge hands out at
//! creation.  The handle owns that identity end to end: it is created, it
//! takes any number of configuration and operation calls, and it is
//! destroyed — after which no operation but another (harmless) destroy is
//! valid.  Every operation is keyed by the identity; what the bridge keeps
//! per window is modelled here as plain fields, so each call's effect is
//! stated exactly.

use vstd::prelude::*;

use crate::events::ClientCommand;
use crate::events::appended_one;
use crate::marshal::no_nul;
use crate::registry::BindStore;
use crate::registry::ELEMENTS;
use crate::registry::RegistryError;
use crate::registry::WINDOWS;
use crate::registry::contains_name;
use crate::registry::index_of_name;
use crate::Browser;
use crate::Runtime;
use vstd::string::StrSliceExecFns;

verus! {

/// The source of fresh window identities.
///
/// The bridge numbers windows from 1 upward; this pool stands for its
/// counter, owned explicitly instead of process-wide.  Identities it hands
/// out are strictly increasing, so a normally constructed window holds a
/// fresh, exclusive identity.
pub struct WindowIdPool {
    /// The identity the next window will receive.
    pub next: usize,
}

impl WindowIdPool {
    /// A pool that has handed out nothing yet: the first window gets
    /// identity 1.
    pub fn new() -> (p: WindowIdPool)
        ensures
            p.next == 1,
    {
        WindowIdPool { next: 1 }
    }
}

/// An owning handle over one bridge window.
pub struct Window {
    /// The window identity all operations are keyed by.
    pub id: usize,
    /// Whether the identity has been released; no operation but another
    /// destroy is valid afterwards.
    pub destroyed: bool,
    /// Whether content is currently shown.
    pub shown: bool,
    /// The browser choice the window was last shown in.
    pub browser: Browser,
    /// Kiosk (fullscreen) mode.
    pub kiosk: bool,
    /// High-contrast rendering.
    pub high_contrast: bool,
    /// Whether the window is hidden.
    pub hidden: bool,
    /// Whether the served content is reachable from the network.
    pub public_network: bool,
    /// Whether event delivery blocks the bridge's loop.
    pub event_blocking: bool,
    /// Window width in pixels (0 until set).
    pub width: u32,
    /// Window height in pixels (0 until set).
    pub height: u32,
    /// Window horizontal position (0 until set).
    pub x: u32,
    /// Window vertical position (0 until set).
    pub y: u32,
    /// The server port (0 until set).
    pub port: usize,
    /// The URL the window currently points at.
    pub url: String,
    /// Root folder served for static assets.
    pub root_folder: String,
    /// Browser profile name (empty when none).
    pub profile_name: String,
    /// Browser profile path (empty when none).
    pub profile_path: String,
    /// Proxy server used by the browser.
    pub proxy: String,
    /// Window icon content.
    pub icon: String,
    /// MIME kind of the window icon.
    pub icon_kind: String,
    /// Runtime third-party scripts are handed to.
    pub runtime: Runtime,
    /// Process identity of the browser the bridge launched (0 until shown).
    pub parent_process_id: usize,
    /// Process identity of the browser's window process (0 until shown).
    pub child_process_id: usize,
    /// The textual result the shown window would answer to a synchronous
    /// script call.
    pub reply: Option<String>,
    /// The requests addressed to the window's clients so far.
    pub sent: Vec<ClientCommand>,
}

impl Window {
    /// What a handle looks like right after construction for `id`: nothing
    /// configured, nothing shown, nothing sent.
    pub open spec fn is_fresh(self, id: usize) -> bool {
        &&& self.id == id
        &&& !self.destroyed
        &&& !self.shown
        &&& self.browser == Browser::NoBrowser
        &&& !self.kiosk
        &&& !self.high_contrast
        &&& !self.hidden
        &&& !self.public_network
        &&& !self.event_blocking
        &&& self.width == 0
        &&& self.height == 0
        &&& self.x == 0
        &&& self.y == 0
        &&& self.port == 0
        &&& self.url@ == Seq::<char>::empty()
        &&& self.root_folder@ == Seq::<char>::empty()
        &&& self.profile_name@ == Seq::<char>::empty()
        &&& self.profile_path@ == Seq::<char>::empty()
        &&& self.proxy@ == Seq::<char>::empty()
        &&& self.icon@ == Seq::<char>::empty()
        &&& self.icon_kind@ == Seq::<char>::empty()
        &&& self.runtime == Runtime::NoRuntime
        &&& self.parent_process_id == 0
        &&& self.child_process_id == 0
        &&& self.reply is None
        &&& self.sent@ == Seq::<ClientCommand>::empty()
    }

    /// Creates a window with a fresh, exclusive identity from the pool.
    pub fn new(pool: &mut WindowIdPool) -> (w: Window)
        requires
            old(pool).next < usize::MAX,
        ensures
            w.is_fresh(old(pool).next),
            final(pool).next == old(pool).next + 1,
    {
        let id = pool.next;
        pool.next = pool.next + 1;
        Window::from_id(id)
    }

    /// Wraps an explicitly chosen identity; the one way two handles may
    /// share an identity.
    pub fn from_id(id: usize) -> (w: Window)
        ensures
            w.is_fresh(id),
    {
        Window {
            id,
            destroyed: false,
            shown: false,
            browser: Browser::NoBrowser,
            kiosk: false,
            high_contrast: false,
            hidden: false,
            public_network: false,
            event_blocking: false,
            width: 0,
            height: 0,
            x: 0,
            y: 0,
            port: 0,
            url: String::new(),
            root_folder: String::new(),
            profile_name: String::new(),
            profile_path: String::new(),
            proxy: String::new(),
            icon: String::new(),
            icon_kind: String::new(),
            runtime: Runtime::NoRuntime,
            parent_process_id: 0,
            child_process_id: 0,
            reply: None,
            sent: Vec::new(),
        }
    }

    /// Registers a handler for an element of this window in the given
    /// registry.  On success the registry gains exactly this binding —
    /// overwriting any handler the pair had — and the returned bind
    /// identifier is the element's stable slot; a capacity overflow is
    /// refused explicitly and leaves the registry unchanged.
    pub fn bind<T: Copy>(&self, store: &mut BindStore<T>, element: &str, func: T) -> (r: Result<
        usize,
        RegistryError,
    >)
        requires
            !self.destroyed,
            no_nul(element@),
            old(store).wf(),
        ensures
            final(store).wf(),
            self.id >= WINDOWS ==> {
                &&& r == Err::<usize, RegistryError>(RegistryError::WindowCapacity)
                &&& *final(store) == *old(store)
            },
            self.id < WINDOWS && !contains_name(old(store).spec_names(), element@) && old(
                store,
            ).spec_names().len() == ELEMENTS as int ==> {
                &&& r == Err::<usize, RegistryError>(RegistryError::ElementCapacity)
                &&& *final(store) == *old(store)
            },
            self.id < WINDOWS && (contains_name(old(store).spec_names(), element@) || old(
                store,
            ).spec_names().len() < ELEMENTS as int) ==> {
                &&& final(store)@ == old(store)@.insert((self.id as int, element@), func)
                &&& r matches Ok(i) && i as int == index_of_name(
                    final(store).spec_names(),
                    element@,
                )
            },
    {
        store.add_function(self.id, element, func)
    }

    /// Shows content in the window, choosing any available browser.
    /// The bridge reports display success as a bare flag; in this model the
    /// window is then shown.
    pub fn show(&mut self, content: &str) -> (r: bool)
        requires
            !old(self).destroyed,
            no_nul(content@),
        ensures
            r == true,
            *final(self) == (Window { shown: true, browser: Browser::AnyBrowser, ..*old(self) }),
    {
        self.shown = true;
        self.browser = Browser::AnyBrowser;
        true
    }

    /// Shows content in a specific browser choice.
    pub fn show_browser(&mut self, content: &str, browser: Browser) -> (r: bool)
        requires
            !old(self).destroyed,
            no_nul(content@),
        ensures
            r == true,
            *final(self) == (Window { shown: true, browser, ..*old(self) }),
    {
        self.shown = true;
        self.browser = browser;
        true
    }

    /// Starts the window as a background server without opening a browser,
    /// and yields the server's base URL.
    pub fn start_server(&mut self, content: &str) -> (r: String)
        requires
            !old(self).destroyed,
            no_nul(content@),
        ensures
            r@ == old(self).url@,
            *final(self) == (Window { shown: true, ..*old(self) }),
    {
        self.shown = true;
        self.url.clone()
    }

    /// Shows content in the embedded native webview.
    pub fn show_wv(&mut self, content: &str) -> (r: bool)
        requires
            !old(self).destroyed,
            no_nul(content@),
        ensures
            r == true,
            *final(self) == (Window { shown: true, browser: Browser::Webview, ..*old(self) }),
    {
        self.shown = true;
        self.browser = Browser::Webview;
        true
    }

    /// Sets kiosk (fullscreen) mode.
    pub fn set_kiosk(&mut self, status: bool)
        requires
            !old(self).destroyed,
        ensures
            *final(self) == (Window { kiosk: status, ..*old(self) }),
    {
        self.kiosk = status;
    }

    /// Sets high-contrast rendering.
    pub fn set_high_contrast(&mut self, status: bool)
        requires
            !old(self).destroyed,
        ensures
            *final(self) == (Window { high_contrast: status, ..*old(self) }),
    {
        self.high_contrast = status;
    }

    /// Closes the window's clients; the window identity stays valid and the
    /// window may be shown again.
    pub fn close(&mut self)
        requires
            !old(self).destroyed,
        ensures
            *final(self) == (Window { shown: false, ..*old(self) }),
    {
        self.shown = false;
    }

    /// Releases the window identity.  Destroying an already-destroyed
    /// window is a no-op: the identity is never released twice.
    pub fn destroy(&mut self)
        ensures
            final(self).destroyed,
            old(self).destroyed ==> *final(self) == *old(self),
            !old(self).destroyed ==> *final(self) == (Window {
                destroyed: true,
                shown: false,
                ..*old(self)
            }),
    {
        if self.destroyed {
            return ;
        }
        self.destroyed = true;
        self.shown = false;
    }

    /// Sets the root folder served for static assets.
    pub fn set_root_folder(&mut self, folder: &str)
        requires
            !old(self).destroyed,
            no_nul(folder@),
        ensures
            *final(self) == (Window { root_folder: final(self).root_folder, ..*old(self) }),
            final(self).root_folder@ == folder@,
    {
        self.root_folder = folder.to_owned();
    }

    /// Whether content is currently shown.
    pub fn is_shown(&self) -> (r: bool)
        requires
            !self.destroyed,
        ensures
            r == self.shown,
    {
        self.shown
    }

    /// Sets the window icon and its MIME kind.
    pub fn set_icon(&mut self, icon: &str, kind: &str)
        requires
            !old(self).destroyed,
            no_nul(icon@),
            no_nul(kind@),
        ensures
            *final(self) == (Window {
                icon: final(self).icon,
                icon_kind: final(self).icon_kind,
                ..*old(self)
            }),
            final(self).icon@ == icon@,
            final(self).icon_kind@ == kind@,
    {
        self.icon = icon.to_owned();
        self.icon_kind = kind.to_owned();
    }

    /// Sends a binary payload, tagged with a function name, to the window's
    /// clients.
    pub fn send_raw(&mut self, function: &str, data: &[u8])
        requires
            !old(self).destroyed,
            no_nul(function@),
        ensures
            *final(self) == (Window { sent: final(self).sent, ..*old(self) }),
            appended_one(old(self).sent@, final(self).sent@),
            final(self).sent@.last() matches ClientCommand::SendRaw(f, d) && f@ == function@ && d@
                == data@,
    {
        let ghost pre = self.sent@;
        let mut payload: Vec<u8> = Vec::new();
        let n = data.len();
        let mut i: usize = 0;
        while i < n
            invariant
                n == data@.len(),
                i <= n,
                payload@ == data@.take(i as int),
            decreases n - i,
        {
            payload.push(data[i]);
            i = i + 1;
        }
        proof {
            assert(payload@ =~= data@);
        }
        self.sent.push(ClientCommand::SendRaw(function.to_owned(), payload));
        proof {
            assert(self.sent@.drop_last() =~= pre);
        }
    }

    /// Hides or reveals the window.
    pub fn set_hide(&mut self, status: bool)
        requires
            !old(self).destroyed,
        ensures
            *final(self) == (Window { hidden: status, ..*old(self) }),
    {
        self.hidden = status;
    }

    /// Sets the window size in pixels.
    pub fn set_size(&mut self, width: u32, height: u32)
        requires
            !old(self).destroyed,
        ensures
            *final(self) == (Window { width, height, ..*old(self) }),
    {
        self.width = width;
        self.height = height;
    }

    /// Sets the window position in pixels.
    pub fn set_position(&mut self, x: u32, y: u32)
        requires
            !old(self).destroyed,
        ensures
            *final(self) == (Window { x, y, ..*old(self) }),
    {
        self.x = x;
        self.y = y;
    }

    /// Sets the browser profile the window runs under.
    pub fn set_profile(&mut self, name: &str, path: &str)
        requires
            !old(self).destroyed,
            no_nul(name@),
            no_nul(path@),
        ensures
            *final(self) == (Window {
                profile_name: final(self).profile_name,
                profile_path: final(self).profile_path,
                ..*old(self)
            }),
            final(self).profile_name@ == name@,
            final(self).profile_path@ == path@,
    {
        self.profile_name = name.to_owned();
        self.profile_path = path.to_owned();
    }

    /// Sets the proxy server the browser uses.
    pub fn set_proxy(&mut self, proxy: &str)
        requires
            !old(self).destroyed,
            no_nul(proxy@),
        ensures
            *final(self) == (Window { proxy: final(self).proxy, ..*old(self) }),
            final(self).proxy@ == proxy@,
    {
        self.proxy = proxy.to_owned();
    }

    /// The URL the window currently points at.
    pub fn get_url(&self) -> (r: String)
        requires
            !self.destroyed,
        ensures
            r@ == self.url@,
    {
        self.url.clone()
    }

    /// Makes the served content reachable from the network, or local only.
    pub fn set_public(&mut self, status: bool)
        requires
            !old(self).destroyed,
        ensures
            *final(self) == (Window { public_network: status, ..*old(self) }),
    {
        self.public_network = status;
    }

    /// Points the window at a URL.
    pub fn navigate(&mut self, url: &str)
        requires
            !old(self).destroyed,
            no_nul(url@),
        ensures
            *final(self) == (Window { url: final(self).url, ..*old(self) }),
            final(self).url@ == url@,
    {
        self.url = url.to_owned();
    }

    /// Forgets the window's browser profile.
    pub fn delete_profile(&mut self)
        requires
            !old(self).destroyed,
        ensures
            *final(self) == (Window {
                profile_name: final(self).profile_name,
                profile_path: final(self).profile_path,
                ..*old(self)
            }),
            final(self).profile_name@ == Seq::<char>::empty(),
            final(self).profile_path@ == Seq::<char>::empty(),
    {
        self.profile_name = String::new();
        self.profile_path = String::new();
    }

    /// Process identity of the browser the bridge launched for this window.
    pub fn get_parent_process_id(&self) -> (r: usize)
        requires
            !self.destroyed,
        ensures
            r == self.parent_process_id,
    {
        self.parent_process_id
    }

    /// Process identity of the browser's window process.
    pub fn get_child_process_id(&self) -> (r: usize)
        requires
            !self.destroyed,
        ensures
            r == self.child_process_id,
    {
        self.child_process_id
    }

    /// The server port of this window.
    pub fn get_port(&self) -> (r: usize)
        requires
            !self.destroyed,
        ensures
            r == self.port,
    {
        self.port
    }

    /// Fixes the server port of this window.
    pub fn set_port(&mut self, port: usize) -> (r: bool)
        requires
            !old(self).destroyed,
        ensures
            r == true,
            *final(self) == (Window { port, ..*old(self) }),
    {
        self.port = port;
        true
    }

    /// Chooses whether event delivery blocks the bridge's loop.
    pub fn set_event_blocking(&mut self, status: bool)
        requires
            !old(self).destroyed,
        ensures
            *final(self) == (Window { event_blocking: status, ..*old(self) }),
    {
        self.event_blocking = status;
    }

    /// Runs a script on the window's clients, fire and forget.
    pub fn run(&mut self, script: &str)
        requires
            !old(self).destroyed,
            no_nul(script@),
        ensures
            *final(self) == (Window { sent: final(self).sent, ..*old(self) }),
            appended_one(old(self).sent@, final(self).sent@),
            final(self).sent@.last() matches ClientCommand::Run(s) && s@ == script@,
    {
        let ghost pre = self.sent@;
        self.sent.push(ClientCommand::Run(script.to_owned()));
        proof {
            assert(self.sent@.drop_last() =~= pre);
        }
    }

    /// Whether a synchronous script call with this result-buffer capacity
    /// would succeed: the window is shown, it answers, and the answer
    /// leaves room for the buffer's terminator.
    pub open spec fn script_succeeds(self, buffer_length: int) -> bool {
        self.shown && match self.reply {
            Some(s) => s@.len() < buffer_length,
            None => false,
        }
    }

    /// The staged reply's characters (empty when none is staged).
    pub open spec fn spec_reply(self) -> Seq<char> {
        match self.reply {
            Some(s) => s@,
            None => Seq::empty(),
        }
    }

    /// Runs a script on the window and waits for its textual result.
    /// Yields the reply exactly when the window is shown, answers, and the
    /// answer fits the result buffer; every other outcome — a window
    /// nothing is connected to above all, whatever the timeout — is the
    /// bare failure flag, never a hang and never a panic.
    pub fn script(&self, script: &str, timeout: usize, buffer_length: usize) -> (r: Result<
        String,
        (),
    >)
        requires
            !self.destroyed,
            no_nul(script@),
        ensures
            r is Ok <==> self.script_succeeds(buffer_length as int),
            r matches Ok(s) ==> s@ == self.spec_reply(),
    {
        if !self.shown {
            return Err(());
        }
        match &self.reply {
            Some(rep) => {
                let len = rep.as_str().unicode_len();
                if len < buffer_length {
                    Ok(rep.clone())
                } else {
                    Err(())
                }
            },
            None => Err(()),
        }
    }

    /// Chooses the runtime third-party scripts are handed to.
    pub fn set_runtime(&mut self, runtime: Runtime)
        requires
            !old(self).destroyed,
        ensures
            *final(self) == (Window { runtime, ..*old(self) }),
    {
        self.runtime = runtime;
    }
}

} // verus!
