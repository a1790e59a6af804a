//! The loaded content of a site, as plain values: pages and sections with the
//! fields that the answer compiler reads.

use vstd::prelude::*;

use crate::answer::AnswerFrontMatter;
use crate::json::Json;

verus! {

/// A content page.
#[derive(Debug)]
pub struct Page {
    /// Path of the source file.
    pub source_path: String,
    /// Absolute URL of the rendered page.
    pub permalink: String,
    /// Site-relative path of the rendered page.
    pub path: String,
    /// Language code of the page.
    pub lang: String,
    /// Path components of the page's URL.
    pub components: Vec<String>,
    /// Source paths of the sections that contain the page, outermost first.
    pub ancestors: Vec<String>,
    /// The title answers are listed under (the page title, or the answer's
    /// first canonical question when the page has none).
    pub answer_title: String,
    pub description: Option<String>,
    pub date: Option<String>,
    pub updated: Option<String>,
    /// Summary of the rendered content, if any.
    pub summary: Option<String>,
    /// Typed answer metadata, for answer pages.
    pub answer: Option<AnswerFrontMatter>,
    /// The parsed `<stem>.schema.json` sidecar, if the page has one.
    pub structured_data_sidecar: Option<Json>,
    /// The canonical machine Markdown of the page, when it emits one.
    pub canonical_machine_markdown: Option<String>,
}

impl Page {
    /// A structured-data sidecar, when present, is a JSON object.
    pub open spec fn sidecar_ok(&self) -> bool {
        match self.structured_data_sidecar {
            Some(j) => j is Object,
            None => true,
        }
    }

    /// Whether the page's structured-data sidecar, if any, is a JSON object.
    pub fn has_valid_sidecar(&self) -> (r: bool)
        ensures
            r == self.sidecar_ok(),
    {
        match &self.structured_data_sidecar {
            Some(Json::Object(_)) => true,
            Some(_) => false,
            None => true,
        }
    }
}

/// A content section.
#[derive(Debug)]
pub struct Section {
    /// Path of the section's `_index.md` (the key ancestors refer to).
    pub source_path: String,
    /// Site-relative path of the rendered section (`/` for the home page).
    pub path: String,
    pub permalink: String,
    pub lang: String,
    pub title: Option<String>,
    pub description: Option<String>,
    /// Source paths of the sections that contain this one, outermost first.
    pub ancestors: Vec<String>,
    /// Source paths of pages left out of a sorted section for lack of a date or weight.
    pub ignored_pages: Vec<String>,
}

/// All pages and sections of a site.
#[derive(Debug)]
pub struct Library {
    pub pages: Vec<Page>,
    pub sections: Vec<Section>,
    /// Site-relative paths of pages that no section links to.
    pub orphan_pages: Vec<String>,
}

impl Library {
    /// Pages are keyed by their source file, so no two share a source path;
    /// structured-data sidecars are JSON objects.
    pub open spec fn well_formed(&self) -> bool {
        &&& forall|i: int, j: int|
            0 <= i < j < self.pages@.len() ==> self.pages@[i].source_path@
                != self.pages@[j].source_path@
        &&& forall|i: int| 0 <= i < self.pages@.len() ==> (#[trigger] self.pages@[i]).sidecar_ok()
    }

    /// Whether the library is well formed.
    pub fn is_well_formed(&self) -> (r: bool)
        ensures
            r == self.well_formed(),
    {
        let pages = &self.pages;
        let mut i: usize = 0;
        while i < pages.len()
            invariant
                i <= pages@.len(),
                pages == &self.pages,
                forall|a: int, b: int|
                    0 <= a < b < pages@.len() && a < i ==> pages@[a].source_path@
                        != pages@[b].source_path@,
                forall|a: int| 0 <= a < i ==> (#[trigger] pages@[a]).sidecar_ok(),
            decreases pages.len() - i,
        {
            if !pages[i].has_valid_sidecar() {
                return false;
            }
            let mut j: usize = i + 1;
            while j < pages.len()
                invariant
                    i < j <= pages@.len(),
                    pages == &self.pages,
                    forall|b: int| i < b < j ==> pages@[i as int].source_path@ != #[trigger] pages@[b].source_path@,
                decreases pages.len() - j,
            {
                if crate::text::str_eq(pages[i].source_path.as_str(), pages[j].source_path.as_str()) {
                    return false;
                }
                j += 1;
            }
            i += 1;
        }
        true
    }
}

} // verus!
