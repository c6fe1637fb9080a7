//! Style texts that ship with the library: one per theme, and the base
//! styles shared by all themes.

use vstd::prelude::*;

verus! {

/// File name under which the stylesheet is published.
pub const STYLESHEET_NAME: &'static str = "style.css";

/// File name under which the favicon is published.
pub const FAVICON_NAME: &'static str = "favicon.ico";

/// Colours of the Gruvbox theme.
pub const GRUVBOX_CSS: &'static str = ":root {
    --color-background: #282828;
    --color-surface: #3c3836;
    --color-border: #504945;
    --color-text: #ebdbb2;
    --color-text-muted: #a89984;
    --color-heading: #fabd2f;
    --color-link: #83a598;
    --color-link-hover: #8ec07c;
    --color-icon: #fe8019;
}
";

/// Layout and typography shared by all themes.
pub const BASE_CSS: &'static str = "
html {
    box-sizing: border-box;
    font-family: sans-serif;
    font-size: 16px;
    line-height: 1.5;
}

*, *::before, *::after {
    box-sizing: inherit;
}

body {
    margin: 0;
    background-color: var(--color-background);
    color: var(--color-text);
}

a {
    color: var(--color-link);
    text-decoration: none;
}

a:hover {
    color: var(--color-link-hover);
}

h4 {
    margin: 2rem 0 1rem 0;
    color: var(--color-heading);
    font-size: 1.5rem;
    font-weight: 600;
}

h5 {
    margin: 1rem 0 0 0;
    color: var(--color-text-muted);
    font-size: 1.1rem;
    font-weight: 600;
}

.mb-0 {
    margin-bottom: 0;
}

.mb-1 {
    margin-bottom: 0.5rem;
}

.container {
    width: 100%;
    max-width: 64rem;
    margin: 0 auto;
    padding: 2rem 1.5rem;
}

.grid {
    display: grid;
    grid-template-columns: repeat(auto-fill, minmax(14rem, 1fr));
    gap: 0.5rem 1.5rem;
}

.row {
    display: flex;
    align-items: center;
    padding: 0.5rem 0.75rem;
    border: 1px solid var(--color-border);
    border-radius: 0.5rem;
    background-color: var(--color-surface);
}

.iconify {
    flex: none;
    color: var(--color-icon);
}

.app-name {
    margin-left: 0.75rem;
    font-weight: 600;
}

.col {
    display: flex;
    flex-direction: column;
}

.bookmark-item {
    padding: 0.15rem 0;
}
";

} // verus!
