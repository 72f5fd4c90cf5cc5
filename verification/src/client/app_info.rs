//! The calling application, as it names itself in the user agent.

use vstd::prelude::*;

verus! {

/// Name, version and home page of the application that uses the client.
#[derive(Clone, Debug, PartialEq, Eq)]
pub struct AppInfo {
    /// The application's name.
    pub name: String,
    /// The application's version.
    pub version: Option<String>,
    /// The application's home page.
    pub url: Option<String>,
}

impl AppInfo {
    /// The text that identifies the application: its name; then, where a
    /// version is given, a slash and the version; then, where a home page is
    /// given, a space and the page in round brackets.
    pub open spec fn text(self) -> Seq<char> {
        self.name@ + (match self.version {
            Some(version) => seq!['/'] + version@,
            None => Seq::empty(),
        }) + (match self.url {
            Some(url) => seq![' ', '('] + url@ + seq![')'],
            None => Seq::empty(),
        })
    }

    /// Renders the identification as text.
    pub fn to_string(&self) -> (r: String)
        ensures
            r@ == self.text(),
    {
        proof {
            reveal_strlit("/");
            reveal_strlit(" (");
            reveal_strlit(")");
        }
        let mut out = self.name.clone();
        if let Some(version) = &self.version {
            out.append("/");
            out.append(version.as_str());
        }
        let ghost middle = out@;
        assert(middle =~= self.name@ + (match self.version {
            Some(version) => seq!['/'] + version@,
            None => Seq::empty(),
        }));
        if let Some(url) = &self.url {
            out.append(" (");
            out.append(url.as_str());
            out.append(")");
            assert(out@ =~= middle + (seq![' ', '('] + url@ + seq![')']));
        }
        assert(out@ =~= self.text());
        out
    }
}

} // verus!
