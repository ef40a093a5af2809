//! Table rendering for the listing commands: a header line and one row per
//! record, each column padded to a fixed width. Writing the lines out is the
//! caller's business.

use vstd::prelude::*;
use crate::pipe::PipeState;
use crate::repository::{AppDescriptor, CatalogsDescriptor};
use crate::text::u64_decimal;

verus! {

/// `n` spaces.
pub open spec fn spaces(n: nat) -> Seq<char>
    decreases n,
{
    if n == 0 {
        Seq::empty()
    } else {
        spaces((n - 1) as nat) + " "@
    }
}

/// `s` padded with spaces to `width`; a longer `s` is kept whole.
pub open spec fn padded(s: Seq<char>, width: nat) -> Seq<char> {
    if s.len() >= width {
        s
    } else {
        s + spaces((width - s.len()) as nat)
    }
}

/// Pads `s` with spaces to `width`.
fn pad(s: &str, width: usize) -> (r: String)
    ensures
        r@ == padded(s@, width as nat),
{
    let mut out = String::from_str(s);
    let len = s.unicode_len();
    if len >= width {
        return out;
    }
    let mut i: usize = 0;
    while i < width - len
        invariant
            len < width,
            len == s@.len(),
            i <= width - len,
            out@ == s@ + spaces(i as nat),
        decreases width - len - i,
    {
        out.append(" ");
        i = i + 1;
    }
    out
}

/// The column width of every listing table.
pub open spec fn column_width() -> nat {
    12
}

/// A listing that renders as a table: a header line and one line per
/// record.
pub trait PrintRecords {
    /// The lines the listing renders to.
    spec fn spec_records(&self) -> Seq<Seq<char>>;

    /// Renders the table lines, exactly as `spec_records` says.
    fn print_records(&self) -> (r: Vec<String>)
        ensures
            r@.map_values(|s: String| s@) == self.spec_records(),
    ;
}

/// The header of the two artifact listings.
pub open spec fn descriptor_header() -> Seq<char> {
    padded("Namespace"@, column_width()) + padded("Id"@, column_width()) + padded(
        "Version"@,
        column_width(),
    )
}

/// One artifact row: namespace, id and version, each in its column.
pub open spec fn descriptor_row(namespace: Seq<char>, id: Seq<char>, version: u64) -> Seq<char> {
    padded(namespace, column_width()) + padded(id, column_width()) + padded(
        u64_decimal(version as nat),
        column_width(),
    )
}

fn render_descriptor_header() -> (r: String)
    ensures
        r@ == descriptor_header(),
{
    let r = pad("Namespace", 12).concat(pad("Id", 12).as_str()).concat(
        pad("Version", 12).as_str(),
    );
    proof {
        assert(r@ =~= descriptor_header());
    }
    r
}

fn render_descriptor_row(namespace: &str, id: &str, version: u64) -> (r: String)
    ensures
        r@ == descriptor_row(namespace@, id@, version),
{
    let shown_version = crate::text::format_u64(version);
    let r = pad(namespace, 12).concat(pad(id, 12).as_str()).concat(
        pad(shown_version.as_str(), 12).as_str(),
    );
    proof {
        assert(r@ =~= descriptor_row(namespace@, id@, version));
    }
    r
}

impl PrintRecords for Vec<AppDescriptor> {
    open spec fn spec_records(&self) -> Seq<Seq<char>> {
        Seq::new(
            self@.len() + 1,
            |i: int|
                if i == 0 {
                    descriptor_header()
                } else {
                    descriptor_row(self@[i - 1]@.namespace, self@[i - 1]@.id, self@[i - 1]@.version)
                },
        )
    }

    fn print_records(&self) -> (r: Vec<String>)
        ensures
            r@.map_values(|s: String| s@) == self.spec_records(),
    {
        let mut out: Vec<String> = Vec::new();
        out.push(render_descriptor_header());
        let n = self.len();
        let mut i: usize = 0;
        while i < n
            invariant
                i <= n,
                n == self@.len(),
                out@.len() == i + 1,
                out@.map_values(|s: String| s@) =~= self.spec_records().take(i as int + 1),
            decreases n - i,
        {
            let d = &self[i];
            out.push(render_descriptor_row(d.namespace.as_str(), d.id.as_str(), d.version));
            proof {
                assert(out@.map_values(|s: String| s@) =~= self.spec_records().take(
                    i as int + 2,
                ));
            }
            i = i + 1;
        }
        proof {
            assert(self.spec_records().take(n as int + 1) =~= self.spec_records());
        }
        out
    }
}

impl PrintRecords for Vec<CatalogsDescriptor> {
    open spec fn spec_records(&self) -> Seq<Seq<char>> {
        Seq::new(
            self@.len() + 1,
            |i: int|
                if i == 0 {
                    descriptor_header()
                } else {
                    descriptor_row(self@[i - 1]@.namespace, self@[i - 1]@.id, self@[i - 1]@.version)
                },
        )
    }

    fn print_records(&self) -> (r: Vec<String>)
        ensures
            r@.map_values(|s: String| s@) == self.spec_records(),
    {
        let mut out: Vec<String> = Vec::new();
        out.push(render_descriptor_header());
        let n = self.len();
        let mut i: usize = 0;
        while i < n
            invariant
                i <= n,
                n == self@.len(),
                out@.len() == i + 1,
                out@.map_values(|s: String| s@) =~= self.spec_records().take(i as int + 1),
            decreases n - i,
        {
            let d = &self[i];
            out.push(render_descriptor_row(d.namespace.as_str(), d.id.as_str(), d.version));
            proof {
                assert(out@.map_values(|s: String| s@) =~= self.spec_records().take(
                    i as int + 2,
                ));
            }
            i = i + 1;
        }
        proof {
            assert(self.spec_records().take(n as int + 1) =~= self.spec_records());
        }
        out
    }
}

/// The header of the pipe listing.
pub open spec fn pipe_header() -> Seq<char> {
    padded("Id"@, column_width()) + padded("Load"@, column_width()) + padded(
        "Active"@,
        column_width(),
    ) + padded("Sub"@, column_width())
}

/// One pipe row: the id and the three state labels, each in its column.
pub open spec fn pipe_row(state: PipeState) -> Seq<char> {
    padded(state.id@, column_width()) + padded(state.load_state.spec_label(), column_width())
        + padded(state.active_state.spec_label(), column_width()) + padded(
        state.sub_state.spec_label(),
        column_width(),
    )
}

fn render_pipe_header() -> (r: String)
    ensures
        r@ == pipe_header(),
{
    let r = pad("Id", 12).concat(pad("Load", 12).as_str()).concat(
        pad("Active", 12).as_str(),
    ).concat(pad("Sub", 12).as_str());
    proof {
        assert(r@ =~= pipe_header());
    }
    r
}

fn render_pipe_row(state: &PipeState) -> (r: String)
    ensures
        r@ == pipe_row(*state),
{
    let load = state.load_state.label();
    let active = state.active_state.label();
    let sub = state.sub_state.label();
    let r = pad(state.id.as_str(), 12).concat(pad(load.as_str(), 12).as_str()).concat(
        pad(active.as_str(), 12).as_str(),
    ).concat(pad(sub.as_str(), 12).as_str());
    proof {
        assert(r@ =~= pipe_row(*state));
    }
    r
}

impl PrintRecords for Vec<PipeState> {
    open spec fn spec_records(&self) -> Seq<Seq<char>> {
        Seq::new(
            self@.len() + 1,
            |i: int|
                if i == 0 {
                    pipe_header()
                } else {
                    pipe_row(self@[i - 1])
                },
        )
    }

    fn print_records(&self) -> (r: Vec<String>)
        ensures
            r@.map_values(|s: String| s@) == self.spec_records(),
    {
        let mut out: Vec<String> = Vec::new();
        out.push(render_pipe_header());
        let n = self.len();
        let mut i: usize = 0;
        while i < n
            invariant
                i <= n,
                n == self@.len(),
                out@.len() == i + 1,
                out@.map_values(|s: String| s@) =~= self.spec_records().take(i as int + 1),
            decreases n - i,
        {
            out.push(render_pipe_row(&self[i]));
            proof {
                assert(out@.map_values(|s: String| s@) =~= self.spec_records().take(
                    i as int + 2,
                ));
            }
            i = i + 1;
        }
        proof {
            assert(self.spec_records().take(n as int + 1) =~= self.spec_records());
        }
        out
    }
}

} // verus!
