use unicode_width::UnicodeWidthStr;
use vstd::prelude::*;

use crate::package_json::{prefix_text, script_entries, scripts_get_index, scripts_len, PackageJson, PackageView};
use crate::style::{paint, painted, ColorSupport, Stream, Style};

verus! {

/// unicode-width's displayed width of a string, in terminal columns.
pub uninterp spec fn display_width(s: Seq<char>) -> usize;

/// unicode-width's `UnicodeWidthStr::width`: the columns `s` takes on a
/// terminal. The value is named `display_width`; nothing more is claimed.
#[verifier::external_body]
fn str_width(s: &str) -> (w: usize)
    ensures
        w == display_width(s@),
{
    s.width()
}

/// `n` spaces.
pub open spec fn spaces(n: nat) -> Seq<char> {
    Seq::new(n, |i: int| ' ')
}

/// `s` right-aligned in a field of `width` characters.
pub open spec fn pad_left(s: Seq<char>, width: nat) -> Seq<char> {
    if s.len() < width {
        spaces((width - s.len()) as nat) + s
    } else {
        s
    }
}

/// The widest displayed script name, or 0 without scripts.
pub open spec fn max_name_width(entries: Seq<(Seq<char>, Seq<char>)>) -> nat
    decreases entries.len(),
{
    if entries.len() == 0 {
        0
    } else {
        let w = display_width(entries.last().0) as nat;
        let m = max_name_width(entries.drop_last());
        if w > m {
            w
        } else {
            m
        }
    }
}

/// `content` cut into lines of `c` characters, each ended by a newline and all
/// but the first indented by `indent`; nothing for empty content.
pub open spec fn wrapped(content: Seq<char>, c: nat, indent: Seq<char>, first: bool) -> Seq<char>
    decreases content.len(),
{
    if content.len() == 0 || c == 0 {
        Seq::empty()
    } else {
        let n = if c < content.len() {
            c
        } else {
            content.len()
        };
        (if first {
            Seq::empty()
        } else {
            indent
        }) + content.take(n as int) + seq!['\n'] + wrapped(content.skip(n as int), c, indent, false)
    }
}

/// The listing line(s) of one script: its name right-aligned to `pad` and
/// in cyan, two spaces, then its command; on a terminal `width` columns wide
/// the command is wrapped to the columns left and continued under itself.
pub open spec fn entry_text(name: Seq<char>, content: Seq<char>, pad: nat, width: Option<usize>, on: bool) -> Seq<char> {
    painted(Style::Cyan, on, pad_left(name, pad)) + seq![' ', ' '] + match width {
        None => content + seq!['\n'],
        Some(w) => wrapped(content, (w - pad - 2) as nat, spaces(pad + 2), true),
    }
}

/// The listing lines of all scripts, in order.
pub open spec fn entries_text(entries: Seq<(Seq<char>, Seq<char>)>, pad: nat, width: Option<usize>, on: bool) -> Seq<char>
    decreases entries.len(),
{
    if entries.len() == 0 {
        Seq::empty()
    } else {
        entries_text(entries.drop_last(), pad, width, on) + entry_text(
            entries.last().0,
            entries.last().1,
            pad,
            width,
            on,
        )
    }
}

/// The listing of one package on standard output: a blank line before every
/// package but the first, the package heading, then one entry per script.
pub open spec fn listing_text(p: PackageView, first: bool, width: Option<usize>, colors: ColorSupport) -> Seq<char> {
    (if first {
        Seq::empty()
    } else {
        seq!['\n']
    }) + prefix_text(p, None, colors.stdout, colors.stderr) + entries_text(
        p.scripts,
        max_name_width(p.scripts),
        width,
        colors.stdout,
    )
}

/// The listing goes to standard output, so its colors follow standard
/// output alone: two color settings that agree on standard output give the
/// same listing, and with standard output uncolored it is the plain listing,
/// whatever standard error supports.
pub proof fn law_listing_follows_stdout_colors(
    p: PackageView,
    first: bool,
    width: Option<usize>,
    c1: ColorSupport,
    c2: ColorSupport,
)
    requires
        c1.stdout == c2.stdout,
    ensures
        listing_text(p, first, width, c1) == listing_text(p, first, width, c2),
        !c1.stdout ==> listing_text(p, first, width, c1) == listing_text(
            p,
            first,
            width,
            ColorSupport { stdout: false, stderr: false },
        ),
{
}

/// Whether a terminal `width` leaves room for the commands next to names
/// padded to `pad` (the listing needs at least one column).
pub open spec fn fits(width: Option<usize>, pad: nat) -> bool {
    match width {
        Some(w) => w > pad + 2,
        None => true,
    }
}

/// The widest displayed script name of a package.
pub fn longest_name_width(package: &PackageJson) -> (w: usize)
    ensures
        w == max_name_width(package@.scripts),
{
    let ghost entries = script_entries(package.scripts);
    let n = scripts_len(&package.scripts);
    let mut widest: usize = 0;
    let mut i: usize = 0;
    while i < n
        invariant
            n == entries.len(),
            entries == script_entries(package.scripts),
            i <= n,
            widest == max_name_width(entries.subrange(0, i as int)),
        decreases n - i,
    {
        match scripts_get_index(&package.scripts, i) {
            Some(kv) => {
                let w = str_width(kv.0.as_str());
                assert(entries.subrange(0, i + 1).drop_last() =~= entries.subrange(0, i as int));
                if w > widest {
                    widest = w;
                }
            },
            None => {},
        }
        i = i + 1;
    }
    assert(entries.subrange(0, n as int) =~= entries);
    widest
}

/// `n` spaces.
fn make_spaces(n: usize) -> (s: String)
    ensures
        s@ == spaces(n as nat),
{
    let mut s = String::new();
    let mut i: usize = 0;
    while i < n
        invariant
            i <= n,
            s@ =~= spaces(i as nat),
        decreases n - i,
    {
        let ghost before = s@;
        proof {
            reveal_strlit(" ");
        }
        s.append(" ");
        assert(s@ =~= spaces((i + 1) as nat)) by {
            assert forall|j: int| 0 <= j < i + 1 implies s@[j] == ' ' by {
                if j < i {
                    assert(s@[j] == before[j]);
                }
            }
        }
        i = i + 1;
    }
    s
}

/// `s` right-aligned in a field of `width` characters.
fn pad_to(s: &str, width: usize) -> (r: String)
    ensures
        r@ == pad_left(s@, width as nat),
{
    let len = s.unicode_len();
    if len < width {
        let mut r = make_spaces(width - len);
        r.append(s);
        r
    } else {
        String::from_str(s)
    }
}

/// Appends `content` cut into lines of `c` characters.
fn push_wrapped(out: &mut String, content: &str, c: usize, indent: &str)
    requires
        c > 0,
    ensures
        final(out)@ == old(out)@ + wrapped(content@, c as nat, indent@, true),
{
    let len = content.unicode_len();
    let ghost base = out@;
    let mut pos: usize = 0;
    assert(content@.skip(0) =~= content@);
    while pos < len
        invariant
            c > 0,
            len == content@.len(),
            pos <= len,
            out@ + wrapped(content@.skip(pos as int), c as nat, indent@, pos == 0) == base + wrapped(
                content@,
                c as nat,
                indent@,
                true,
            ),
        decreases len - pos,
    {
        let rest = len - pos;
        let n = if c < rest {
            c
        } else {
            rest
        };
        let ghost tail = content@.skip(pos as int);
        let ghost before = out@;
        if pos != 0 {
            out.append(indent);
        }
        let piece = content.substring_char(pos, pos + n);
        out.append(piece);
        proof {
            reveal_strlit("\n");
        }
        out.append("\n");
        proof {
            assert(tail.take(n as int) =~= piece@);
            assert(tail.skip(n as int) =~= content@.skip(pos + n));
            assert(out@ =~= before + (if pos == 0 {
                Seq::empty()
            } else {
                indent@
            }) + tail.take(n as int) + seq!['\n']);
        }
        pos = pos + n;
    }
    assert(content@.skip(len as int) =~= Seq::<char>::empty());
    assert(out@ =~= base + wrapped(content@, c as nat, indent@, true));
}

/// Renders the listing of one package for standard output; `first` tells
/// whether it is the first package listed, `width` the terminal's width. A
/// package with scripts needs a terminal wider than its names' column.
pub fn render_package(package: &PackageJson, first: bool, width: Option<usize>, colors: ColorSupport) -> (r: String)
    requires
        package@.scripts.len() > 0 ==> fits(width, max_name_width(package@.scripts)),
    ensures
        r@ == listing_text(package@, first, width, colors),
{
    proof {
        reveal_strlit("\n");
        reveal_strlit("  ");
    }
    let on = colors.stdout;
    let mut out = String::new();
    if !first {
        out.append("\n");
    }
    let heading = package.make_prefix(None, Stream::Stdout, colors);
    out.append(heading.as_str());
    let ghost head = out@;
    let pad = longest_name_width(package);
    let ghost entries = script_entries(package.scripts);
    let indent = match width {
        Some(w) => if w > pad + 2 {
            make_spaces(pad + 2)
        } else {
            String::new()
        },
        None => String::new(),
    };
    let n = scripts_len(&package.scripts);
    let mut i: usize = 0;
    while i < n
        invariant
            n == entries.len(),
            entries == script_entries(package.scripts),
            pad == max_name_width(entries),
            n > 0 ==> fits(width, pad as nat),
            n > 0 && width is Some ==> indent@ == spaces((pad + 2) as nat),
            i <= n,
            out@ == head + entries_text(entries.subrange(0, i as int), pad as nat, width, on),
        decreases n - i,
    {
        match scripts_get_index(&package.scripts, i) {
            Some(kv) => {
                let ghost before = out@;
                let padded = pad_to(kv.0.as_str(), pad);
                let name = paint(padded.as_str(), Style::Cyan, on);
                out.append(name.as_str());
                proof {
                    reveal_strlit("  ");
                    reveal_strlit("\n");
                }
                out.append("  ");
                match width {
                    None => {
                        out.append(kv.1.as_str());
                        out.append("\n");
                    },
                    Some(w) => {
                        push_wrapped(&mut out, kv.1.as_str(), w - pad - 2, indent.as_str());
                    },
                }
                proof {
                    let sub = entries.subrange(0, i + 1);
                    assert(sub.drop_last() =~= entries.subrange(0, i as int));
                    assert(sub.last() == entries[i as int]);
                    assert(out@ =~= before + entry_text(kv.0@, kv.1@, pad as nat, width, on));
                }
            },
            None => {},
        }
        i = i + 1;
    }
    assert(entries.subrange(0, n as int) =~= entries);
    assert(out@ =~= listing_text(package@, first, width, colors));
    out
}


/// Renders the listing of one package when the terminal leaves room for it:
/// `None` for a package with scripts on a terminal no wider than its names'
/// column plus two, where the listing cannot be laid out.
pub fn render_package_checked(package: &PackageJson, first: bool, width: Option<usize>, colors: ColorSupport) -> (r: Option<String>)
    ensures
        r is None <==> (package@.scripts.len() > 0 && !fits(width, max_name_width(package@.scripts))),
        r matches Some(text) ==> text@ == listing_text(package@, first, width, colors),
{
    let has_scripts = scripts_len(&package.scripts) > 0;
    let pad = longest_name_width(package);
    let room = match width {
        Some(w) => pad < w && w - pad > 2,
        None => true,
    };
    if has_scripts && !room {
        None
    } else {
        Some(render_package(package, first, width, colors))
    }
}

} // verus!
