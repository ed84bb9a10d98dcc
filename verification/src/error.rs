//! The structured error returned by every fallible function of this crate.
//!
//! An error has exactly two kinds: `ConfigInvalid` for configuration the
//! caller must fix, and `Unexpected` for failures of the underlying
//! transport or driver. It carries a message, a list of context pairs for
//! diagnosis, and optionally the text of the causal source error. Two
//! renderings are offered: a single-line form and a multi-line detailed
//! form; both are functions of those fields alone.

use vstd::prelude::*;

verus! {

/// The two failure categories a caller can observe.
#[derive(Clone, Copy, Debug, PartialEq, Eq, Structural)]
pub enum ErrorKind {
    /// A failure of the underlying transport or driver; nothing to do but
    /// report it.
    Unexpected,
    /// The supplied configuration is invalid and must be fixed.
    ConfigInvalid,
}

impl ErrorKind {
    /// The name of the kind, as a sequence of characters.
    pub open spec fn spec_name(self) -> Seq<char> {
        match self {
            ErrorKind::Unexpected => "Unexpected"@,
            ErrorKind::ConfigInvalid => "ConfigInvalid"@,
        }
    }

    /// Convert self into a static str naming the kind.
    pub fn into_static(self) -> (r: &'static str)
        ensures
            r@ == self.spec_name(),
    {
        match self {
            ErrorKind::Unexpected => "Unexpected",
            ErrorKind::ConfigInvalid => "ConfigInvalid",
        }
    }
}

/// The error struct returned by the client's functions.
#[derive(Debug)]
pub struct Error {
    kind: ErrorKind,
    message: String,
    context: Vec<(String, String)>,
    source: Option<String>,
}

impl Error {
    /// The kind of this error.
    pub closed spec fn kind_spec(&self) -> ErrorKind {
        self.kind
    }

    /// The message of this error.
    pub closed spec fn message_spec(&self) -> Seq<char> {
        self.message@
    }

    /// The context pairs of this error, in insertion order.
    pub closed spec fn context_spec(&self) -> Seq<(Seq<char>, Seq<char>)> {
        self.context@.map_values(|p: (String, String)| (p.0@, p.1@))
    }

    /// The rendered text of the causal source error, if one was attached.
    pub closed spec fn source_spec(&self) -> Option<Seq<char>> {
        match self.source {
            Option::Some(s) => Option::Some(s@),
            Option::None => Option::None,
        }
    }

    /// Create a new Error with error kind and message, no context and no
    /// source.
    pub fn new(kind: ErrorKind, message: &str) -> (r: Self)
        ensures
            r.kind_spec() == kind,
            r.message_spec() == message@,
            r.context_spec() =~= Seq::<(Seq<char>, Seq<char>)>::empty(),
            r.source_spec() is None,
    {
        Error {
            kind,
            message: message.to_owned(),
            context: Vec::new(),
            source: None,
        }
    }

    /// Add one more context pair to the error.
    pub fn with_context(self, key: &'static str, value: String) -> (r: Self)
        ensures
            r.kind_spec() == self.kind_spec(),
            r.message_spec() == self.message_spec(),
            r.context_spec() =~= self.context_spec().push((key@, value@)),
            r.source_spec() == self.source_spec(),
    {
        let ghost before = self.context@;
        let mut e = self;
        e.context.push((key.to_owned(), value));
        proof {
            assert(e.context_spec() =~= before.map_values(
                |p: (String, String)| (p.0@, p.1@),
            ).push((key@, value@)));
        }
        e
    }

    /// Set the causal source for the error. Attaching a second source to an
    /// error that already has one is a programming-contract violation, so a
    /// caller must not do it.
    pub fn set_source(self, src: String) -> (r: Self)
        requires
            self.source_spec() is None,
        ensures
            r.kind_spec() == self.kind_spec(),
            r.message_spec() == self.message_spec(),
            r.context_spec() == self.context_spec(),
            r.source_spec() == Some(src@),
    {
        let mut e = self;
        e.source = Some(src);
        e
    }

    /// The kind of the error, for callers that branch on it.
    pub fn kind(&self) -> (k: ErrorKind)
        ensures
            k == self.kind_spec(),
    {
        self.kind
    }

    /// A copy of the error's message.
    pub fn message_text(&self) -> (r: String)
        ensures
            r@ == self.message_spec(),
    {
        self.message.clone()
    }

    /// A copy of the source text, if a source was attached.
    pub fn source_text(&self) -> (r: Option<String>)
        ensures
            (r is Some <==> self.source_spec() is Some),
            r is Some ==> r->0@ == self.source_spec()->0,
    {
        match &self.source {
            Some(s) => Some(s.clone()),
            None => None,
        }
    }
}

/// The context pairs joined as `k1: v1, k2: v2, ...`.
pub open spec fn spec_context_join(ctx: Seq<(Seq<char>, Seq<char>)>) -> Seq<char>
    decreases ctx.len(),
{
    if ctx.len() == 0 {
        Seq::<char>::empty()
    } else if ctx.len() == 1 {
        ctx[0].0 + ": "@ + ctx[0].1
    } else {
        spec_context_join(ctx.drop_last()) + ", "@ + ctx.last().0 + ": "@ + ctx.last().1
    }
}

/// The single-line rendering:
/// `Kind, context: { k: v, ... } => message, source: ...`,
/// with the context block, the message and the source each present only
/// when non-empty.
pub open spec fn spec_single_line(
    kind: ErrorKind,
    msg: Seq<char>,
    ctx: Seq<(Seq<char>, Seq<char>)>,
    src: Option<Seq<char>>,
) -> Seq<char> {
    kind.spec_name() + (if ctx.len() > 0 {
        ", context: { "@ + spec_context_join(ctx) + " }"@
    } else {
        Seq::<char>::empty()
    }) + (if msg.len() > 0 {
        " => "@ + msg
    } else {
        Seq::<char>::empty()
    }) + (match src {
        Option::Some(s) => ", source: "@ + s,
        Option::None => Seq::<char>::empty(),
    })
}

/// The context pairs as an indented block, one `   k: v` line each.
pub open spec fn spec_context_block(ctx: Seq<(Seq<char>, Seq<char>)>) -> Seq<char>
    decreases ctx.len(),
{
    if ctx.len() == 0 {
        Seq::<char>::empty()
    } else {
        spec_context_block(ctx.drop_last()) + "   "@ + ctx.last().0 + ": "@ + ctx.last().1
            + "\n"@
    }
}

/// The multi-line detailed rendering: a `Kind => message` header, then a
/// context block and a source block, each present only when non-empty.
pub open spec fn spec_detailed(
    kind: ErrorKind,
    msg: Seq<char>,
    ctx: Seq<(Seq<char>, Seq<char>)>,
    src: Option<Seq<char>>,
) -> Seq<char> {
    kind.spec_name() + (if msg.len() > 0 {
        " => "@ + msg
    } else {
        Seq::<char>::empty()
    }) + "\n"@ + (if ctx.len() > 0 {
        "\nContext:\n"@ + spec_context_block(ctx)
    } else {
        Seq::<char>::empty()
    }) + (match src {
        Option::Some(s) => "\nSource:\n   "@ + s + "\n"@,
        Option::None => Seq::<char>::empty(),
    })
}

impl Error {
    /// Render the error on a single line, exactly as `spec_single_line`
    /// says. The output is a function of the error's kind, message, context
    /// and source text alone.
    pub fn render_single_line(&self) -> (r: String)
        ensures
            r@ == spec_single_line(
                self.kind_spec(),
                self.message_spec(),
                self.context_spec(),
                self.source_spec(),
            ),
    {
        let ghost ctx = self.context_spec();
        let mut out = String::new();
        out.append(self.kind.into_static());
        if self.context.len() > 0 {
            out.append(", context: { ");
            let ghost head = out@;
            let mut i: usize = 0;
            while i < self.context.len()
                invariant
                    0 < self.context.len(),
                    i <= self.context.len(),
                    ctx == self.context_spec(),
                    ctx.len() == self.context.len(),
                    out@ == head + spec_context_join(ctx.take(i as int)),
                decreases self.context.len() - i,
            {
                let ghost pre = out@;
                if i > 0 {
                    out.append(", ");
                }
                out.append(self.context[i].0.as_str());
                out.append(": ");
                out.append(self.context[i].1.as_str());
                proof {
                    assert(ctx[i as int] == (self.context@[i as int].0@,
                        self.context@[i as int].1@));
                    assert(ctx.take(i + 1).drop_last() =~= ctx.take(i as int));
                    assert(ctx.take(i + 1).last() == ctx[i as int]);
                    if i == 0 {
                        assert(spec_context_join(ctx.take(1)) =~= ctx[0].0 + ": "@ + ctx[0].1);
                        assert(out@ =~= head + spec_context_join(ctx.take(1)));
                    } else {
                        assert(out@ =~= head + spec_context_join(ctx.take(i + 1)));
                    }
                }
                i = i + 1;
            }
            proof {
                assert(ctx.take(ctx.len() as int) =~= ctx);
            }
            out.append(" }");
        }
        if !self.message.as_str().is_empty() {
            out.append(" => ");
            out.append(self.message.as_str());
        }
        match &self.source {
            Some(s) => {
                out.append(", source: ");
                out.append(s.as_str());
            },
            None => {},
        }
        out
    }

    /// Render the error in the multi-line detailed form, exactly as
    /// `spec_detailed` says. The output is a function of the error's kind,
    /// message, context and source text alone.
    pub fn render_detailed(&self) -> (r: String)
        ensures
            r@ == spec_detailed(
                self.kind_spec(),
                self.message_spec(),
                self.context_spec(),
                self.source_spec(),
            ),
    {
        let ghost ctx = self.context_spec();
        let mut out = String::new();
        out.append(self.kind.into_static());
        if !self.message.as_str().is_empty() {
            out.append(" => ");
            out.append(self.message.as_str());
        }
        out.append("\n");
        if self.context.len() > 0 {
            out.append("\nContext:\n");
            let ghost head = out@;
            let mut i: usize = 0;
            while i < self.context.len()
                invariant
                    i <= self.context.len(),
                    ctx == self.context_spec(),
                    ctx.len() == self.context.len(),
                    out@ == head + spec_context_block(ctx.take(i as int)),
                decreases self.context.len() - i,
            {
                out.append("   ");
                out.append(self.context[i].0.as_str());
                out.append(": ");
                out.append(self.context[i].1.as_str());
                out.append("\n");
                proof {
                    assert(ctx[i as int] == (self.context@[i as int].0@,
                        self.context@[i as int].1@));
                    assert(ctx.take(i + 1).drop_last() =~= ctx.take(i as int));
                    assert(ctx.take(i + 1).last() == ctx[i as int]);
                    assert(out@ =~= head + spec_context_block(ctx.take(i + 1)));
                }
                i = i + 1;
            }
            proof {
                assert(ctx.take(ctx.len() as int) =~= ctx);
            }
        }
        match &self.source {
            Some(s) => {
                out.append("\nSource:\n   ");
                out.append(s.as_str());
                out.append("\n");
            },
            None => {},
        }
        out
    }
}

} // verus!
