//! What the command line tells the user.

use crate::model::Model;
use crate::registration::{WEZTERM_TERMHOST_FALLBACK_CONSOLE_CLSID, WEZTERM_TERMHOST_TERMINAL_CLSID};
use vstd::prelude::*;

verus! {

/// A message to the user.
#[derive(Debug)]
pub enum Notice<S> {
    /// The fallback console host could not be registered, and why.
    FallbackSkipped(S),
    OpenConsoleMissing,
    /// The proxy/stub could not be registered, and why.
    ProxyStubSkipped(S),
    ProxyDllMissing,
    ProxyDllFromWindowsTerminal,
    Enabled,
    ServerRegistered,
    Restored,
    LeftAlone,
    /// The previous selection could not be restored, and why.
    RestoreFailed(S),
    ServerRemoved,
    FallbackRemoved,
    Disabled,
    NothingToDo,
}

impl<S: Model> Model for Notice<S> {
    type M = Notice<S::M>;

    open spec fn model(&self) -> Notice<S::M> {
        match self {
            Notice::FallbackSkipped(s) => Notice::FallbackSkipped(s.model()),
            Notice::OpenConsoleMissing => Notice::OpenConsoleMissing,
            Notice::ProxyStubSkipped(s) => Notice::ProxyStubSkipped(s.model()),
            Notice::ProxyDllMissing => Notice::ProxyDllMissing,
            Notice::ProxyDllFromWindowsTerminal => Notice::ProxyDllFromWindowsTerminal,
            Notice::Enabled => Notice::Enabled,
            Notice::ServerRegistered => Notice::ServerRegistered,
            Notice::Restored => Notice::Restored,
            Notice::LeftAlone => Notice::LeftAlone,
            Notice::RestoreFailed(s) => Notice::RestoreFailed(s.model()),
            Notice::ServerRemoved => Notice::ServerRemoved,
            Notice::FallbackRemoved => Notice::FallbackRemoved,
            Notice::Disabled => Notice::Disabled,
            Notice::NothingToDo => Notice::NothingToDo,
        }
    }
}

/// Whether a message goes to standard error.
pub open spec fn is_warning<S>(notice: Notice<S>) -> bool {
    notice is FallbackSkipped || notice is OpenConsoleMissing || notice is ProxyStubSkipped
        || notice is ProxyDllMissing || notice is ProxyDllFromWindowsTerminal
        || notice is RestoreFailed
}

/// The wording of a message.
pub open spec fn notice_text(notice: Notice<Seq<char>>) -> Seq<char> {
    match notice {
        Notice::FallbackSkipped(e) => "warning: OpenConsole fallback registration skipped: "@ + e,
        Notice::OpenConsoleMissing => "warning: bundled OpenConsole.exe not found. Console launches will crash with 0xc0000142 until OpenConsole.exe is available next to wezterm-gui.exe."@,
        Notice::ProxyStubSkipped(e) => "warning: proxy/stub registration skipped: "@ + e,
        Notice::ProxyDllMissing => "note: proxy/stub DLL not found next to wezterm-gui.exe; skipping per-user registration. The DLL is bundled in assets/windows/conhost/ and copied by the build."@,
        Notice::ProxyDllFromWindowsTerminal => "note: proxy/stub DLL not found; relying on Windows Terminal's MSIX-packaged proxy stub. If defterm does not work, install OpenConsoleProxy.dll next to wezterm-gui.exe."@,
        Notice::Enabled => "WezTerm is now the Windows default terminal.\n\nTerminal CLSID : "@
            + WEZTERM_TERMHOST_TERMINAL_CLSID@ + "\nConsole CLSID  : "@
            + WEZTERM_TERMHOST_FALLBACK_CONSOLE_CLSID@
            + " (Microsoft OpenConsole.exe; bundled copy registered as fallback)\nRegistry key   : HKCU\\Console\\%%Startup\\DelegationConsole, DelegationTerminal"@,
        Notice::ServerRegistered => "\nRegistered HKCU\\Software\\Classes\\CLSID\\"@
            + WEZTERM_TERMHOST_TERMINAL_CLSID@ + "\\LocalServer32 -> wezterm-gui.exe."@,
        Notice::Restored => "Restored previous default terminal selection."@,
        Notice::LeftAlone => "Current default is not WezTerm; leaving DelegationConsole/DelegationTerminal unchanged."@,
        Notice::RestoreFailed(e) => "warning: delegation restore failed: "@ + e
            + "; continuing with cleanup"@,
        Notice::ServerRemoved => "Removed WezTerm-owned HKCU\\Software\\Classes\\CLSID\\"@
            + WEZTERM_TERMHOST_TERMINAL_CLSID@ + " entry."@,
        Notice::FallbackRemoved => "Removed WezTerm-owned OpenConsole fallback (HKCU\\Software\\Classes\\CLSID\\"@
            + WEZTERM_TERMHOST_FALLBACK_CONSOLE_CLSID@ + ")."@,
        Notice::Disabled => "WezTerm is no longer registered as the Windows default terminal."@,
        Notice::NothingToDo => "WezTerm was not registered as the default terminal; nothing to do."@,
    }
}

impl Notice<String> {
    /// Whether the message goes to standard error.
    pub fn is_warning(&self) -> (r: bool)
        ensures
            r == is_warning(*self),
    {
        match self {
            Notice::FallbackSkipped(_) | Notice::OpenConsoleMissing | Notice::ProxyStubSkipped(_)
            | Notice::ProxyDllMissing | Notice::ProxyDllFromWindowsTerminal
            | Notice::RestoreFailed(_) => true,
            _ => false,
        }
    }

    /// The wording of the message.
    pub fn text(&self) -> (r: String)
        ensures
            r@ == notice_text(self.model()),
    {
        match self {
            Notice::FallbackSkipped(
                e,
            ) => "warning: OpenConsole fallback registration skipped: ".to_string().concat(
                e.as_str(),
            ),
            Notice::OpenConsoleMissing => "warning: bundled OpenConsole.exe not found. Console launches will crash with 0xc0000142 until OpenConsole.exe is available next to wezterm-gui.exe.".to_string(),
            Notice::ProxyStubSkipped(
                e,
            ) => "warning: proxy/stub registration skipped: ".to_string().concat(e.as_str()),
            Notice::ProxyDllMissing => "note: proxy/stub DLL not found next to wezterm-gui.exe; skipping per-user registration. The DLL is bundled in assets/windows/conhost/ and copied by the build.".to_string(),
            Notice::ProxyDllFromWindowsTerminal => "note: proxy/stub DLL not found; relying on Windows Terminal's MSIX-packaged proxy stub. If defterm does not work, install OpenConsoleProxy.dll next to wezterm-gui.exe.".to_string(),
            Notice::Enabled => "WezTerm is now the Windows default terminal.\n\nTerminal CLSID : ".to_string().concat(
                WEZTERM_TERMHOST_TERMINAL_CLSID,
            ).concat("\nConsole CLSID  : ").concat(WEZTERM_TERMHOST_FALLBACK_CONSOLE_CLSID).concat(
                " (Microsoft OpenConsole.exe; bundled copy registered as fallback)\nRegistry key   : HKCU\\Console\\%%Startup\\DelegationConsole, DelegationTerminal",
            ),
            Notice::ServerRegistered => "\nRegistered HKCU\\Software\\Classes\\CLSID\\".to_string().concat(
                WEZTERM_TERMHOST_TERMINAL_CLSID,
            ).concat("\\LocalServer32 -> wezterm-gui.exe."),
            Notice::Restored => "Restored previous default terminal selection.".to_string(),
            Notice::LeftAlone => "Current default is not WezTerm; leaving DelegationConsole/DelegationTerminal unchanged.".to_string(),
            Notice::RestoreFailed(e) => "warning: delegation restore failed: ".to_string().concat(
                e.as_str(),
            ).concat("; continuing with cleanup"),
            Notice::ServerRemoved => "Removed WezTerm-owned HKCU\\Software\\Classes\\CLSID\\".to_string().concat(
                WEZTERM_TERMHOST_TERMINAL_CLSID,
            ).concat(" entry."),
            Notice::FallbackRemoved => "Removed WezTerm-owned OpenConsole fallback (HKCU\\Software\\Classes\\CLSID\\".to_string().concat(
                WEZTERM_TERMHOST_FALLBACK_CONSOLE_CLSID,
            ).concat(")."),
            Notice::Disabled => "WezTerm is no longer registered as the Windows default terminal.".to_string(),
            Notice::NothingToDo => "WezTerm was not registered as the default terminal; nothing to do.".to_string(),
        }
    }
}

/// Exactly the messages that begin as a warning or a note go to standard error.
/// One that tells of a failure tells its reason.
pub proof fn warnings_are_told_as_such(notice: &Notice<String>, warns: bool, r: String)
    requires
        call_ensures(Notice::<String>::is_warning, (notice,), warns),
        call_ensures(Notice::<String>::text, (notice,), r),
    ensures
        warns <==> "warning: "@.is_prefix_of(r@) || "note: "@.is_prefix_of(r@),
        notice matches Notice::FallbackSkipped(e) ==> e@.is_suffix_of(r@),
        notice matches Notice::ProxyStubSkipped(e) ==> e@.is_suffix_of(r@),
        notice matches Notice::RestoreFailed(e) ==> (e@ + "; continuing with cleanup"@).is_suffix_of(
            r@,
        ),
{
    reveal_strlit("warning: ");
    reveal_strlit("note: ");
    lemma_wording(notice.model());
    match notice {
        Notice::FallbackSkipped(e) => {
            let n = "warning: OpenConsole fallback registration skipped: "@.len() as int;
            assert(e@ =~= r@.subrange(n, r@.len() as int));
        },
        Notice::ProxyStubSkipped(e) => {
            let n = "warning: proxy/stub registration skipped: "@.len() as int;
            assert(e@ =~= r@.subrange(n, r@.len() as int));
        },
        Notice::RestoreFailed(e) => {
            let n = "warning: delegation restore failed: "@.len() as int;
            assert((e@ + "; continuing with cleanup"@) =~= r@.subrange(n, r@.len() as int));
        },
        _ => {},
    }
}

proof fn lemma_wording(notice: Notice<Seq<char>>)
    ensures
        is_warning(notice) <==> seq!['w', 'a', 'r', 'n', 'i', 'n', 'g', ':', ' '].is_prefix_of(
            notice_text(notice),
        ) || seq!['n', 'o', 't', 'e', ':', ' '].is_prefix_of(notice_text(notice)),
{
    let w = seq!['w', 'a', 'r', 'n', 'i', 'n', 'g', ':', ' '];
    let n = seq!['n', 'o', 't', 'e', ':', ' '];
    let t = notice_text(notice);
    match notice {
        Notice::FallbackSkipped(e) => {
            reveal_strlit("warning: OpenConsole fallback registration skipped: ");
            assert(w =~= t.subrange(0, 9));
        },
        Notice::OpenConsoleMissing => {
            reveal_strlit("warning: bundled OpenConsole.exe not found. Console launches will crash with 0xc0000142 until OpenConsole.exe is available next to wezterm-gui.exe.");
            assert(w =~= t.subrange(0, 9));
        },
        Notice::ProxyStubSkipped(e) => {
            reveal_strlit("warning: proxy/stub registration skipped: ");
            assert(w =~= t.subrange(0, 9));
        },
        Notice::ProxyDllMissing => {
            reveal_strlit("note: proxy/stub DLL not found next to wezterm-gui.exe; skipping per-user registration. The DLL is bundled in assets/windows/conhost/ and copied by the build.");
            assert(n =~= t.subrange(0, 6));
        },
        Notice::ProxyDllFromWindowsTerminal => {
            reveal_strlit("note: proxy/stub DLL not found; relying on Windows Terminal's MSIX-packaged proxy stub. If defterm does not work, install OpenConsoleProxy.dll next to wezterm-gui.exe.");
            assert(n =~= t.subrange(0, 6));
        },
        Notice::Enabled => {
            reveal_strlit("WezTerm is now the Windows default terminal.\n\nTerminal CLSID : ");
            lemma_no_prefix(t, w, n);
        },
        Notice::ServerRegistered => {
            reveal_strlit("\nRegistered HKCU\\Software\\Classes\\CLSID\\");
            lemma_no_prefix(t, w, n);
        },
        Notice::Restored => {
            reveal_strlit("Restored previous default terminal selection.");
            lemma_no_prefix(t, w, n);
        },
        Notice::LeftAlone => {
            reveal_strlit("Current default is not WezTerm; leaving DelegationConsole/DelegationTerminal unchanged.");
            lemma_no_prefix(t, w, n);
        },
        Notice::RestoreFailed(e) => {
            reveal_strlit("warning: delegation restore failed: ");
            assert(w =~= t.subrange(0, 9));
        },
        Notice::ServerRemoved => {
            reveal_strlit("Removed WezTerm-owned HKCU\\Software\\Classes\\CLSID\\");
            lemma_no_prefix(t, w, n);
        },
        Notice::FallbackRemoved => {
            reveal_strlit("Removed WezTerm-owned OpenConsole fallback (HKCU\\Software\\Classes\\CLSID\\");
            lemma_no_prefix(t, w, n);
        },
        Notice::Disabled => {
            reveal_strlit("WezTerm is no longer registered as the Windows default terminal.");
            lemma_no_prefix(t, w, n);
        },
        Notice::NothingToDo => {
            reveal_strlit("WezTerm was not registered as the default terminal; nothing to do.");
            lemma_no_prefix(t, w, n);
        },
    }
}

proof fn lemma_no_prefix(t: Seq<char>, a: Seq<char>, b: Seq<char>)
    requires
        t.len() > 0,
        a.len() > 0 && a[0] != t[0],
        b.len() > 0 && b[0] != t[0],
    ensures
        !a.is_prefix_of(t),
        !b.is_prefix_of(t),
{
    if a.is_prefix_of(t) {
        assert(t.subrange(0, a.len() as int)[0] == t[0]);
    }
    if b.is_prefix_of(t) {
        assert(t.subrange(0, b.len() as int)[0] == t[0]);
    }
}

} // verus!
