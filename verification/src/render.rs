//! The display form of a value.

use vstd::prelude::*;
use vstd::string::*;
use crate::namespace::{Entry};
use crate::pyobject::{Heap, PyObjectKind, PyContext};

verus! {

/// How many containers deep the display form goes; what lies deeper is
/// shown as `...`.
pub const DISPLAY_DEPTH: usize = 8;

/// The text of one decimal digit.
pub open spec fn digit_text(d: int) -> Seq<char> {
    if d == 0 {
        "0"@
    } else if d == 1 {
        "1"@
    } else if d == 2 {
        "2"@
    } else if d == 3 {
        "3"@
    } else if d == 4 {
        "4"@
    } else if d == 5 {
        "5"@
    } else if d == 6 {
        "6"@
    } else if d == 7 {
        "7"@
    } else if d == 8 {
        "8"@
    } else {
        "9"@
    }
}

/// The decimal digits of a natural number, without leading zeros.
pub open spec fn digits(n: nat) -> Seq<char>
    decreases n,
{
    if n < 10 {
        digit_text(n as int)
    } else {
        digits(n / 10) + digit_text((n % 10) as int)
    }
}

/// The decimal form of an integer: a minus sign if it is negative, then the
/// digits of its magnitude.
pub open spec fn decimal(v: int) -> Seq<char> {
    if v < 0 {
        "-"@ + digits((-v) as nat)
    } else {
        digits(v as nat)
    }
}

/// The display forms of the elements from position `k` on, separated by
/// a comma and a space.
pub open spec fn display_items(heap: Heap, elements: Seq<usize>, k: int, depth: nat) -> Seq<char>
    decreases depth, elements.len() - k + 1,
{
    if 0 <= k < elements.len() {
        (if k > 0 {
            ", "@
        } else {
            ""@
        }) + display(heap, elements[k] as int, depth) + display_items(heap, elements, k + 1, depth)
    } else {
        Seq::empty()
    }
}

/// The display forms of the entries from position `k` on, each as its key,
/// a colon, a space and its value, separated by a comma and a space.
pub open spec fn display_entries(heap: Heap, entries: Seq<Entry>, k: int, depth: nat) -> Seq<char>
    decreases depth, entries.len() - k + 1,
{
    if 0 <= k < entries.len() {
        (if k > 0 {
            ", "@
        } else {
            ""@
        }) + entries[k].key@ + ": "@ + display(heap, entries[k].value as int, depth) + display_entries(
            heap,
            entries,
            k + 1,
            depth,
        )
    } else {
        Seq::empty()
    }
}

/// The display form of the value under `id`: an integer in decimal, a string
/// as it is, a container in brackets around the display forms of what it
/// holds, down to `depth` containers.
pub open spec fn display(heap: Heap, id: int, depth: nat) -> Seq<char>
    decreases depth, 0nat,
{
    if 0 <= id < heap.len() {
        match heap[id].kind {
            PyObjectKind::NoneValue => "None"@,
            PyObjectKind::Boolean { value } => if value {
                "True"@
            } else {
                "False"@
            },
            PyObjectKind::Integer { value } => decimal(value as int),
            PyObjectKind::String { value } => value@,
            PyObjectKind::Tuple { elements } => if depth == 0 {
                "(...)"@
            } else {
                "("@ + display_items(heap, elements@, 0, (depth - 1) as nat) + ")"@
            },
            PyObjectKind::List { elements } => if depth == 0 {
                "[...]"@
            } else {
                "["@ + display_items(heap, elements@, 0, (depth - 1) as nat) + "]"@
            },
            PyObjectKind::Dict { elements } => if depth == 0 {
                "{...}"@
            } else {
                "{"@ + display_entries(heap, elements@, 0, (depth - 1) as nat) + "}"@
            },
            PyObjectKind::Scope { .. } => "<scope>"@,
            PyObjectKind::Module { name, .. } => "<module '"@ + name@ + "'>"@,
            PyObjectKind::RustFunction { .. } => "<built-in function>"@,
            PyObjectKind::Function { .. } => "<function>"@,
            PyObjectKind::Code { .. } => "<code>"@,
            PyObjectKind::Class { name, .. } => "<class '"@ + name@ + "'>"@,
            PyObjectKind::Instance { .. } => "<object>"@,
            PyObjectKind::Exception { message, .. } => message@,
        }
    } else {
        Seq::empty()
    }
}

fn digit_str(d: u64) -> (s: &'static str)
    requires
        d < 10,
    ensures
        s@ == digit_text(d as int),
{
    if d == 0 {
        "0"
    } else if d == 1 {
        "1"
    } else if d == 2 {
        "2"
    } else if d == 3 {
        "3"
    } else if d == 4 {
        "4"
    } else if d == 5 {
        "5"
    } else if d == 6 {
        "6"
    } else if d == 7 {
        "7"
    } else if d == 8 {
        "8"
    } else {
        "9"
    }
}

fn push_digits(out: &mut String, n: u64)
    ensures
        final(out)@ == old(out)@ + digits(n as nat),
    decreases n,
{
    if n >= 10 {
        push_digits(out, n / 10);
    }
    out.append(digit_str(n % 10));
    assert(out@ =~= old(out)@ + digits(n as nat));
}

/// The decimal form of `v`.
pub fn decimal_string(v: i64) -> (s: String)
    ensures
        s@ == decimal(v as int),
{
    let mut out = String::new();
    if v < 0 {
        out.append("-");
        let magnitude: u64 = ((-(v + 1)) as u64) + 1;
        push_digits(&mut out, magnitude);
        assert(out@ =~= decimal(v as int));
    } else {
        push_digits(&mut out, v as u64);
        assert(out@ =~= decimal(v as int));
    }
    out
}

/// Appends the display form of the value under `id` to `out`.
pub fn display_into(ctx: &PyContext, id: usize, depth: usize, out: &mut String)
    requires
        ctx.wf(),
        id < ctx.heap().len(),
    ensures
        final(out)@ == old(out)@ + display(ctx.heap(), id as int, depth as nat),
    decreases depth, 0nat,
{
    let ghost heap = ctx.heap();
    let ghost start = out@;
    assert(heap[id as int].ok(id as int, heap.len() as int));
    match &ctx.objects[id].kind {
        PyObjectKind::NoneValue => out.append("None"),
        PyObjectKind::Boolean { value } => if *value {
            out.append("True")
        } else {
            out.append("False")
        },
        PyObjectKind::Integer { value } => {
            let text = decimal_string(*value);
            out.append(text.as_str());
        },
        PyObjectKind::String { value } => out.append(value.as_str()),
        PyObjectKind::Tuple { elements } => {
            if depth == 0 {
                out.append("(...)");
            } else {
                out.append("(");
                items_into(ctx, elements, depth - 1, out);
                out.append(")");
                assert(out@ =~= start + display(heap, id as int, depth as nat));
            }
        },
        PyObjectKind::List { elements } => {
            if depth == 0 {
                out.append("[...]");
            } else {
                out.append("[");
                items_into(ctx, elements, depth - 1, out);
                out.append("]");
                assert(out@ =~= start + display(heap, id as int, depth as nat));
            }
        },
        PyObjectKind::Dict { elements } => {
            if depth == 0 {
                out.append("{...}");
            } else {
                out.append("{");
                let ghost opened = out@;
                let ghost d = (depth - 1) as nat;
                let mut k: usize = 0;
                while k < elements.len()
                    invariant
                        ctx.wf(),
                        heap == ctx.heap(),
                        k <= elements.len(),
                        depth > 0,
                        d == depth - 1,
                        forall|j: int| 0 <= j < elements@.len() ==> (#[trigger] elements@[j]).value < heap.len(),
                        out@ + display_entries(heap, elements@, k as int, d) == opened + display_entries(
                            heap,
                            elements@,
                            0,
                            d,
                        ),
                    decreases elements.len() - k,
                {
                    let ghost before = out@;
                    if k > 0 {
                        out.append(", ");
                    }
                    out.append(elements[k].key.as_str());
                    out.append(": ");
                    display_into(ctx, elements[k].value, depth - 1, out);
                    k += 1;
                    assert(out@ + display_entries(heap, elements@, k as int, d) =~= before + display_entries(
                        heap,
                        elements@,
                        k - 1,
                        d,
                    )) by {
                        reveal_strlit("");
                    }
                }
                assert(out@ =~= opened + display_entries(heap, elements@, 0, d));
                out.append("}");
                assert(out@ =~= start + display(heap, id as int, depth as nat));
            }
        },
        PyObjectKind::Scope { .. } => out.append("<scope>"),
        PyObjectKind::Module { name, .. } => {
            out.append("<module '");
            out.append(name.as_str());
            out.append("'>");
            assert(out@ =~= start + display(heap, id as int, depth as nat));
        },
        PyObjectKind::RustFunction { .. } => out.append("<built-in function>"),
        PyObjectKind::Function { .. } => out.append("<function>"),
        PyObjectKind::Code { .. } => out.append("<code>"),
        PyObjectKind::Class { name, .. } => {
            out.append("<class '");
            out.append(name.as_str());
            out.append("'>");
            assert(out@ =~= start + display(heap, id as int, depth as nat));
        },
        PyObjectKind::Instance { .. } => out.append("<object>"),
        PyObjectKind::Exception { message, .. } => out.append(message.as_str()),
    }
}

/// Appends the display forms of `elements`, separated by a comma and a space.
fn items_into(ctx: &PyContext, elements: &Vec<usize>, depth: usize, out: &mut String)
    requires
        ctx.wf(),
        forall|j: int| 0 <= j < elements@.len() ==> #[trigger] elements@[j] < ctx.heap().len(),
    ensures
        final(out)@ == old(out)@ + display_items(ctx.heap(), elements@, 0, depth as nat),
    decreases depth, 1nat,
{
    let ghost heap = ctx.heap();
    let ghost start = out@;
    let ghost d = depth as nat;
    let mut k: usize = 0;
    while k < elements.len()
        invariant
            ctx.wf(),
            heap == ctx.heap(),
            k <= elements.len(),
            d == depth,
            forall|j: int| 0 <= j < elements@.len() ==> #[trigger] elements@[j] < heap.len(),
            out@ + display_items(heap, elements@, k as int, d) == start + display_items(heap, elements@, 0, d),
        decreases elements.len() - k,
    {
        let ghost before = out@;
        if k > 0 {
            out.append(", ");
        }
        display_into(ctx, elements[k], depth, out);
        k += 1;
        assert(out@ + display_items(heap, elements@, k as int, d) =~= before + display_items(
            heap,
            elements@,
            k - 1,
            d,
        )) by {
            reveal_strlit("");
        }
    }
    assert(out@ =~= start + display_items(heap, elements@, 0, d));
}

/// The display form of the value under `id`. It depends on the stored objects
/// alone: the same store gives the same text.
pub fn render(ctx: &PyContext, id: usize) -> (text: String)
    requires
        ctx.wf(),
        id < ctx.heap().len(),
    ensures
        text@ == display(ctx.heap(), id as int, DISPLAY_DEPTH as nat),
{
    let mut out = String::new();
    display_into(ctx, id, DISPLAY_DEPTH, &mut out);
    assert(out@ =~= display(ctx.heap(), id as int, DISPLAY_DEPTH as nat));
    out
}

} // verus!
