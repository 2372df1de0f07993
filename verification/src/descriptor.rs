use vstd::prelude::*;
use vstd::string::StrSliceExecFns;

verus! {

/// One of the letters that stand for a primitive type.
pub open spec fn is_primitive(c: char) -> bool {
    c == 'Z' || c == 'B' || c == 'S' || c == 'C' || c == 'I' || c == 'J' || c == 'F' || c == 'D'
}

/// The place of the first `c` at or after `i`.
pub open spec fn first_at(d: Seq<char>, c: char, i: int) -> Option<int>
    decreases d.len() - i,
{
    if i < 0 || i >= d.len() {
        None
    } else if d[i] == c {
        Some(i)
    } else {
        first_at(d, c, i + 1)
    }
}

/// The place after the type that starts at `i`: a primitive letter, a class
/// name between `L` and `;`, or `[` before the type of an array's elements.
pub open spec fn type_end(d: Seq<char>, i: int) -> Option<int>
    decreases d.len() - i,
{
    if i < 0 || i >= d.len() {
        None
    } else if is_primitive(d[i]) {
        Some(i + 1)
    } else if d[i] == 'L' {
        match first_at(d, ';', i + 1) {
            Some(semi) => Some(semi + 1),
            None => None,
        }
    } else if d[i] == '[' {
        type_end(d, i + 1)
    } else {
        None
    }
}

/// The number of types between `i` and the closing bracket.
pub open spec fn count_types(d: Seq<char>, i: int) -> Option<nat>
    decreases d.len() - i,
{
    if i < 0 || i >= d.len() {
        None
    } else if d[i] == ')' {
        Some(0)
    } else {
        match type_end(d, i) {
            Some(end) => if i < end <= d.len() {
                match count_types(d, end) {
                    Some(n) => Some(n + 1),
                    None => None,
                }
            } else {
                None
            },
            None => None,
        }
    }
}

/// The number of parameters of a method given as name, `:`, descriptor, where
/// the descriptor is the parameter types in round brackets and then the
/// result type. Each parameter counts once, whatever its type.
pub open spec fn arity(name_desc: Seq<char>) -> Option<nat> {
    match first_at(name_desc, ':', 0) {
        Some(colon) => if colon + 1 < name_desc.len() && name_desc[colon + 1] == '(' {
            count_types(name_desc, colon + 2)
        } else {
            None
        },
        None => None,
    }
}

fn find_first(d: &str, c: char, from: usize) -> (r: Option<usize>)
    ensures
        r matches Some(at) ==> first_at(d@, c, from as int) == Some(at as int) && from <= at
            < d@.len(),
        r is None ==> first_at(d@, c, from as int) is None,
{
    let n = d.unicode_len();
    let mut i: usize = from;
    while i < n
        invariant
            from <= i,
            n == d@.len(),
            first_at(d@, c, from as int) == first_at(d@, c, i as int),
        decreases n - i,
    {
        if d.get_char(i) == c {
            return Some(i);
        }
        i = i + 1;
    }
    None
}

fn end_of_type(d: &str, from: usize) -> (r: Option<usize>)
    ensures
        r matches Some(end) ==> type_end(d@, from as int) == Some(end as int) && from < end
            <= d@.len(),
        r is None ==> type_end(d@, from as int) is None,
{
    let n = d.unicode_len();
    let mut i: usize = from;
    while i < n
        invariant
            from <= i,
            n == d@.len(),
            type_end(d@, from as int) == type_end(d@, i as int),
        decreases n - i,
    {
        let c = d.get_char(i);
        if c == 'Z' || c == 'B' || c == 'S' || c == 'C' || c == 'I' || c == 'J' || c == 'F' || c
            == 'D' {
            return Some(i + 1);
        } else if c == 'L' {
            return match find_first(d, ';', i + 1) {
                Some(semi) => Some(semi + 1),
                None => None,
            };
        } else if c != '[' {
            return None;
        }
        i = i + 1;
    }
    None
}

/// The number of parameters of the method `name_desc`, if its descriptor is
/// well formed.
pub fn parameter_count(name_desc: &str) -> (r: Option<usize>)
    ensures
        r matches Some(n) ==> arity(name_desc@) == Some(n as nat) && n < name_desc@.len() && n
            < usize::MAX,
        r is None ==> arity(name_desc@) is None,
{
    let n = name_desc.unicode_len();
    let colon = match find_first(name_desc, ':', 0) {
        Some(at) => at,
        None => {
            return None;
        },
    };
    if colon + 1 >= n || name_desc.get_char(colon + 1) != '(' {
        return None;
    }
    let mut i: usize = colon + 2;
    let mut count: usize = 0;
    loop
        invariant
            n == name_desc@.len(),
            colon + 2 <= i,
            count <= i,
            arity(name_desc@) == (match count_types(name_desc@, i as int) {
                Some(more) => Some(more + count as nat),
                None => None,
            }),
        decreases n - i,
    {
        if i >= n {
            return None;
        }
        if name_desc.get_char(i) == ')' {
            return Some(count);
        }
        match end_of_type(name_desc, i) {
            Some(end) => {
                i = end;
                count = count + 1;
            },
            None => {
                return None;
            },
        }
    }
}

} // verus!
