use vstd::prelude::*;

verus! {

/// Strings joined with `sep` between each two, in order.
pub open spec fn joined(args: Seq<String>, sep: Seq<char>) -> Seq<char>
    decreases args.len(),
{
    if args.len() == 0 {
        Seq::empty()
    } else if args.len() == 1 {
        args[0]@
    } else {
        joined(args.drop_last(), sep) + sep + args.last()@
    }
}

/// Joins strings with `sep` between each two.
pub fn join(args: &Vec<String>, sep: &str) -> (r: String)
    ensures
        r@ == joined(args@, sep@),
{
    let mut out = String::new();
    let n = args.len();
    let mut i: usize = 0;
    while i < n
        invariant
            n == args@.len(),
            i <= n,
            out@ == joined(args@.subrange(0, i as int), sep@),
        decreases n - i,
    {
        let ghost before = args@.subrange(0, i as int);
        let ghost after = args@.subrange(0, i + 1);
        assert(after.drop_last() =~= before);
        assert(after.last() == args@[i as int]);
        if i > 0 {
            out.append(sep);
        }
        out.append(args[i].as_str());
        proof {
            if i == 0 {
                assert(before.len() == 0);
                assert(out@ =~= after[0]@);
            } else {
                assert(out@ =~= joined(before, sep@) + sep@ + after.last()@);
            }
        }
        i = i + 1;
    }
    assert(args@.subrange(0, n as int) =~= args@);
    out
}

/// Joins query arguments (`name=value` each) into one query string.
pub fn join_query(args: &Vec<String>) -> (r: String)
    ensures
        r@ == joined(args@, "&"@),
{
    join(args, "&")
}

/// The decimal digit for `d`.
pub open spec fn digit_char(d: nat) -> char {
    if d == 0 { '0' } else if d == 1 { '1' } else if d == 2 { '2' } else if d == 3 { '3' }
    else if d == 4 { '4' } else if d == 5 { '5' } else if d == 6 { '6' } else if d == 7 { '7' }
    else if d == 8 { '8' } else { '9' }
}

/// The decimal form of a natural number, without leading zeros.
pub open spec fn decimal(n: nat) -> Seq<char>
    decreases n,
{
    if n < 10 {
        seq![digit_char(n)]
    } else {
        decimal(n / 10) + seq![digit_char(n % 10)]
    }
}

fn digit_text(d: u64) -> (r: &'static str)
    requires
        d < 10,
    ensures
        r@ == seq![digit_char(d as nat)],
{
    proof {
        reveal_strlit("0"); reveal_strlit("1"); reveal_strlit("2"); reveal_strlit("3");
        reveal_strlit("4"); reveal_strlit("5"); reveal_strlit("6"); reveal_strlit("7");
        reveal_strlit("8"); reveal_strlit("9");
    }
    let r = if d == 0 { "0" } else if d == 1 { "1" } else if d == 2 { "2" } else if d == 3 { "3" }
        else if d == 4 { "4" } else if d == 5 { "5" } else if d == 6 { "6" } else if d == 7 { "7" }
        else if d == 8 { "8" } else { "9" };
    assert(r@ =~= seq![digit_char(d as nat)]);
    r
}

/// Writes a natural number in decimal, as `u64`'s `Display` does.
pub fn to_decimal(n: u64) -> (r: String)
    ensures
        r@ == decimal(n as nat),
    decreases n,
{
    if n < 10 {
        String::from_str(digit_text(n))
    } else {
        let mut s = to_decimal(n / 10);
        s.append(digit_text(n % 10));
        s
    }
}

/// A query argument `name=value`.
pub open spec fn arg(name: Seq<char>, value: Seq<char>) -> Seq<char> {
    name + "="@ + value
}


/// A query string with one more argument: joined with `&` after the earlier
/// ones, or alone when there are none.
pub open spec fn with_arg(query: Seq<char>, a: Seq<char>) -> Seq<char> {
    if query.len() == 0 {
        a
    } else {
        query + "&"@ + a
    }
}

/// Adds the argument `name=value` to a query string.
pub fn push_arg(query: &mut String, name: &str, value: &str)
    ensures
        final(query)@ == with_arg(old(query)@, arg(name@, value@)),
{
    proof {
        reveal_strlit("=");
        reveal_strlit("&");
    }
    if !query.as_str().is_empty() {
        query.append("&");
    }
    query.append(name);
    query.append("=");
    query.append(value);
    assert(final(query)@ =~= with_arg(old(query)@, arg(name@, value@)));
}

/// A query string with a list argument: the values joined by spaces, or the
/// query unchanged when there are none.
pub open spec fn with_list_arg(query: Seq<char>, name: Seq<char>, values: Seq<String>) -> Seq<char> {
    if values.len() > 0 {
        with_arg(query, arg(name, joined(values, " "@)))
    } else {
        query
    }
}

/// Adds the list argument `name=v1 v2 ...` to a query string, where the list
/// is not empty.
pub fn push_list_arg(query: &mut String, name: &str, values: &Vec<String>)
    ensures
        final(query)@ == with_list_arg(old(query)@, name@, values@),
{
    if values.len() > 0 {
        let all = join(values, " ");
        push_arg(query, name, all.as_str());
    }
}

} // verus!
