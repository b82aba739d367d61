use vstd::prelude::*;

verus! {

/// Script installed in every page before it loads: it defines the blur that the
/// `whatsapp-linux-privacy` class on the root element turns on, so that the blur survives
/// page reloads.
pub const INITIALIZATION_SCRIPT: &'static str = "(() => { const style = document.createElement('style'); style.textContent = 'html.whatsapp-linux-privacy body { filter: blur(10px) !important; }'; const install = () => (document.head || document.documentElement).appendChild(style); if (document.documentElement) { install(); } else { document.addEventListener('DOMContentLoaded', install); } })();";

/// Script that turns the privacy blur on in the current page.
pub const ENABLE_SCRIPT: &'static str = "(() => { document.documentElement.classList.add('whatsapp-linux-privacy'); })();";

/// Script that turns the privacy blur off in the current page.
pub const DISABLE_SCRIPT: &'static str = "(() => { document.documentElement.classList.remove('whatsapp-linux-privacy'); })();";

/// The script that brings the page in line with the privacy setting `enabled`.
pub fn script_for(enabled: bool) -> (script: &'static str)
    ensures
        script@ == (if enabled {
            ENABLE_SCRIPT@
        } else {
            DISABLE_SCRIPT@
        }),
{
    if enabled {
        ENABLE_SCRIPT
    } else {
        DISABLE_SCRIPT
    }
}

} // verus!
