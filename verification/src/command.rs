//! A PowerShell command line, built one argument at a time. The arguments are
//! joined with single spaces; text values stand in single quotes.
use vstd::prelude::*;
use crate::text::{
    is_blank, lemma_ps_escape_reads_back, ps_escape, ps_unescape, push_char, push_decimal,
    push_ps_escaped, push_signed_decimal, quotes_paired, signed_decimal, text_is_blank, texts,
    trim, trimmed,
};

verus! {

/// The parts joined with `sep` between each two neighbours.
pub open spec fn join(parts: Seq<Seq<char>>, sep: Seq<char>) -> Seq<char>
    decreases parts.len(),
{
    if parts.len() == 0 {
        Seq::empty()
    } else if parts.len() == 1 {
        parts[0]
    } else {
        join(parts.drop_last(), sep) + sep + parts.last()
    }
}

/// `piece` stands somewhere in `text`, character for character.
pub open spec fn holds(text: Seq<char>, piece: Seq<char>) -> bool {
    exists|i: int|
        0 <= i && i + piece.len() <= text.len() && #[trigger] text.subrange(
            i,
            i + piece.len(),
        ) == piece
}

/// A sequence holds an element exactly when one of its two halves does.
pub broadcast proof fn lemma_add_contains<A>(a: Seq<A>, b: Seq<A>, x: A)
    ensures
        #[trigger] (a + b).contains(x) == (a.contains(x) || b.contains(x)),
{
    if a.contains(x) {
        let i = choose|i: int| 0 <= i < a.len() && a[i] == x;
        assert((a + b)[i] == x);
    }
    if b.contains(x) {
        let j = choose|j: int| 0 <= j < b.len() && b[j] == x;
        assert((a + b)[a.len() + j] == x);
    }
    if (a + b).contains(x) {
        let k = choose|k: int| 0 <= k < (a + b).len() && (a + b)[k] == x;
        if k < a.len() {
            assert(a[k] == x);
        } else {
            assert(b[k - a.len()] == x);
        }
    }
}

/// A sequence with one more element holds that element and what it held.
pub broadcast proof fn lemma_push_contains<A>(s: Seq<A>, x: A, y: A)
    ensures
        #[trigger] s.push(x).contains(y) == (s.contains(y) || x == y),
{
    if s.contains(y) {
        let i = choose|i: int| 0 <= i < s.len() && s[i] == y;
        assert(s.push(x)[i] == y);
    }
    if x == y {
        assert(s.push(x)[s.len() as int] == y);
    }
    if s.push(x).contains(y) {
        let k = choose|k: int| 0 <= k < s.push(x).len() && s.push(x)[k] == y;
        if k < s.len() {
            assert(s[k] == y);
        }
    }
}

/// Text that stands in a shorter text stands in any text that begins with it.
pub proof fn lemma_holds_in_longer(text: Seq<char>, more: Seq<char>, piece: Seq<char>)
    requires
        holds(text, piece),
    ensures
        holds(text + more, piece),
{
    let i = choose|i: int|
        0 <= i && i + piece.len() <= text.len() && #[trigger] text.subrange(i, i + piece.len())
            == piece;
    assert((text + more).subrange(i, i + piece.len()) =~= text.subrange(i, i + piece.len()));
}

/// Each part stands, character for character, in the parts joined.
pub proof fn lemma_join_holds_each_part(parts: Seq<Seq<char>>, sep: Seq<char>, k: int)
    requires
        0 <= k < parts.len(),
    ensures
        holds(join(parts, sep), parts[k]),
    decreases parts.len(),
{
    let j = join(parts, sep);
    let piece = parts[k];
    if parts.len() == 1 {
        let i: int = 0;
        assert(j.subrange(i, i + piece.len()) =~= piece);
    } else if k == parts.len() - 1 {
        let i: int = j.len() - piece.len();
        assert(j.subrange(i, i + piece.len()) =~= piece);
    } else {
        let p = join(parts.drop_last(), sep);
        lemma_join_holds_each_part(parts.drop_last(), sep, k);
        assert(parts.drop_last()[k] == piece);
        let i = choose|i: int|
            0 <= i && i + piece.len() <= p.len() && #[trigger] p.subrange(i, i + piece.len())
                == piece;
        assert(j =~= p + (sep + parts.last()));
        assert(j.subrange(i, i + piece.len()) =~= p.subrange(i, i + piece.len()));
    }
}

/// An argument of a command line stands, character for character, in the
/// script that joins the arguments with single spaces and adds a tail.
pub proof fn lemma_script_holds_argument(args: Seq<Seq<char>>, tail: Seq<char>, arg: Seq<char>)
    requires
        args.contains(arg),
    ensures
        holds(join(args, seq![' ']) + tail, arg),
{
    let k = choose|k: int| 0 <= k < args.len() && args[k] == arg;
    lemma_join_holds_each_part(args, seq![' '], k);
    lemma_holds_in_longer(join(args, seq![' ']), tail, arg);
}

/// A text value in single quotes: `'value'`, with its quotes doubled.
pub open spec fn quoted(value: Seq<char>) -> Seq<char> {
    seq!['\''] + ps_escape(value) + seq!['\'']
}

/// A quoted value, whatever it holds, opens and closes with an ASCII
/// apostrophe, every apostrophe between is doubled, and what stands between
/// reads back as the value. This speaks of the ASCII apostrophe only:
/// PowerShell also ends a single-quoted string at the typographic quotes
/// U+2018 to U+201B, which escaping leaves as they are.
pub proof fn lemma_quoted_is_one_literal(value: Seq<char>)
    ensures
        quoted(value).len() >= 2,
        quoted(value)[0] == '\'',
        quoted(value).last() == '\'',
        quotes_paired(quoted(value).subrange(1, quoted(value).len() - 1)),
        ps_unescape(quoted(value).subrange(1, quoted(value).len() - 1)) == value,
{
    lemma_ps_escape_reads_back(value);
    let q = quoted(value);
    assert(q.subrange(1, q.len() - 1) =~= ps_escape(value));
}

/// `-Flag 'value'`.
pub open spec fn quoted_arg(flag: Seq<char>, value: Seq<char>) -> Seq<char> {
    flag + seq![' '] + quoted(value)
}

/// `-Flag 123` or `-Flag -5`.
pub open spec fn number_arg(flag: Seq<char>, n: int) -> Seq<char> {
    flag + seq![' '] + signed_decimal(n)
}

/// PowerShell's literal for a boolean: `$true` or `$false`.
pub open spec fn ps_bool(b: bool) -> Seq<char> {
    if b {
        seq!['$', 't', 'r', 'u', 'e']
    } else {
        seq!['$', 'f', 'a', 'l', 's', 'e']
    }
}

/// `-Flag $true` or `-Flag $false`.
pub open spec fn bool_arg(flag: Seq<char>, b: bool) -> Seq<char> {
    flag + seq![' '] + ps_bool(b)
}

/// `-Flag:$true` or `-Flag:$false`.
pub open spec fn colon_bool_arg(flag: Seq<char>, b: bool) -> Seq<char> {
    flag + seq![':'] + ps_bool(b)
}

/// The flag alone when `on` holds, nothing otherwise.
pub open spec fn switch_arg(flag: Seq<char>, on: bool) -> Seq<Seq<char>> {
    if on {
        seq![flag]
    } else {
        Seq::empty()
    }
}

/// `-Flag 'value'` when the value is present, nothing otherwise.
pub open spec fn opt_quoted(flag: Seq<char>, value: Option<String>) -> Seq<Seq<char>> {
    match value {
        Some(v) => seq![quoted_arg(flag, v@)],
        None => Seq::empty(),
    }
}

/// `-Flag n` for an optional `u64`.
pub open spec fn opt_u64(flag: Seq<char>, value: Option<u64>) -> Seq<Seq<char>> {
    match value {
        Some(n) => seq![number_arg(flag, n as int)],
        None => Seq::empty(),
    }
}

/// `-Flag n` for an optional `u32`.
pub open spec fn opt_u32(flag: Seq<char>, value: Option<u32>) -> Seq<Seq<char>> {
    match value {
        Some(n) => seq![number_arg(flag, n as int)],
        None => Seq::empty(),
    }
}

/// `-Flag n` for an optional `u16`.
pub open spec fn opt_u16(flag: Seq<char>, value: Option<u16>) -> Seq<Seq<char>> {
    match value {
        Some(n) => seq![number_arg(flag, n as int)],
        None => Seq::empty(),
    }
}

/// `-Flag n` for an optional `i64`.
pub open spec fn opt_i64(flag: Seq<char>, value: Option<i64>) -> Seq<Seq<char>> {
    match value {
        Some(n) => seq![number_arg(flag, n as int)],
        None => Seq::empty(),
    }
}

/// `-Flag n` for an optional `i32`.
pub open spec fn opt_i32(flag: Seq<char>, value: Option<i32>) -> Seq<Seq<char>> {
    match value {
        Some(n) => seq![number_arg(flag, n as int)],
        None => Seq::empty(),
    }
}

/// `-Flag $b` when the flag value is present, nothing otherwise.
pub open spec fn opt_bool(flag: Seq<char>, value: Option<bool>) -> Seq<Seq<char>> {
    match value {
        Some(b) => seq![bool_arg(flag, b)],
        None => Seq::empty(),
    }
}

/// `-Flag:$b` when the flag value is present, nothing otherwise.
pub open spec fn opt_colon_bool(flag: Seq<char>, value: Option<bool>) -> Seq<Seq<char>> {
    match value {
        Some(b) => seq![colon_bool_arg(flag, b)],
        None => Seq::empty(),
    }
}

/// Each value in single quotes.
pub open spec fn quoted_items(values: Seq<String>) -> Seq<Seq<char>> {
    values.map_values(|v: String| quoted(v@))
}

/// The values in single quotes, separated by commas: `'a','b'`.
pub open spec fn quoted_list(values: Seq<String>) -> Seq<char> {
    join(quoted_items(values), seq![','])
}

/// `-Flag 'a','b'`.
pub open spec fn list_arg(flag: Seq<char>, values: Seq<String>) -> Seq<char> {
    flag + seq![' '] + quoted_list(values)
}

/// `-Flag @('a','b')`.
pub open spec fn array_arg(flag: Seq<char>, values: Seq<String>) -> Seq<char> {
    flag + seq![' ', '@', '('] + quoted_list(values) + seq![')']
}

/// `-Flag 'a','b'` when the list is present.
pub open spec fn opt_list(flag: Seq<char>, values: Option<Vec<String>>) -> Seq<Seq<char>> {
    match values {
        Some(v) => seq![list_arg(flag, v@)],
        None => Seq::empty(),
    }
}

/// `-Flag @('a','b')` when the list is present.
pub open spec fn opt_array(flag: Seq<char>, values: Option<Vec<String>>) -> Seq<Seq<char>> {
    match values {
        Some(v) => seq![array_arg(flag, v@)],
        None => Seq::empty(),
    }
}

/// `-ManagementOS` when the management operating system is the target,
/// otherwise `-VMName 'name'` when a machine is named.
pub open spec fn target_args(management_os: bool, vm_name: Option<String>) -> Seq<Seq<char>> {
    if management_os {
        seq!["-ManagementOS"@]
    } else {
        opt_quoted("-VMName"@, vm_name)
    }
}

/// `-Flag 'value'` with the value trimmed, when it is present and not blank.
pub open spec fn opt_trimmed_quoted(flag: Seq<char>, value: Option<String>) -> Seq<Seq<char>> {
    match value {
        Some(v) => if is_blank(v@) {
            Seq::empty()
        } else {
            seq![quoted_arg(flag, trim(v@))]
        },
        None => Seq::empty(),
    }
}

/// `-Flag 1,2,3`.
pub open spec fn number_list_arg(flag: Seq<char>, values: Seq<i32>) -> Seq<char> {
    flag + seq![' '] + join(values.map_values(|n: i32| signed_decimal(n as int)), seq![','])
}

/// The arguments of a command line; the first one names the cmdlet.
pub struct ArgList {
    items: Vec<String>,
}

impl View for ArgList {
    type V = Seq<Seq<char>>;

    closed spec fn view(&self) -> Seq<Seq<char>> {
        texts(self.items@)
    }
}

impl ArgList {
    /// A command line that holds the cmdlet's name only.
    pub fn new(cmdlet: &str) -> (r: ArgList)
        ensures
            r@ == seq![cmdlet@],
    {
        let mut items: Vec<String> = Vec::new();
        items.push(cmdlet.to_string());
        let r = ArgList { items };
        assert(r@ =~= seq![cmdlet@]);
        r
    }

    /// Appends one argument, given as text.
    pub fn push(&mut self, arg: String)
        ensures
            final(self)@ == old(self)@ + seq![arg@],
    {
        let ghost before = self@;
        self.items.push(arg);
        assert(self@ =~= before.push(arg@));
    }

    /// Appends an argument that stands as written.
    pub fn push_literal(&mut self, arg: &str)
        ensures
            final(self)@ == old(self)@ + seq![arg@],
    {
        self.push(arg.to_string());
    }

    /// Appends the flag when `on` holds.
    pub fn push_switch(&mut self, flag: &str, on: bool)
        ensures
            final(self)@ == old(self)@ + switch_arg(flag@, on),
    {
        let ghost before = self@;
        if on {
            self.push_literal(flag);
        }
        assert(self@ =~= before + switch_arg(flag@, on));
    }

    /// Appends `-Flag 'value'`.
    pub fn push_quoted(&mut self, flag: &str, value: &str)
        ensures
            final(self)@ == old(self)@ + seq![quoted_arg(flag@, value@)],
    {
        let mut s = flag.to_string();
        push_char(&mut s, ' ');
        push_char(&mut s, '\'');
        push_ps_escaped(&mut s, value);
        push_char(&mut s, '\'');
        assert(s@ =~= quoted_arg(flag@, value@));
        self.push(s);
    }

    /// Appends `-Flag 'value'` when the value is present.
    pub fn push_opt_quoted(&mut self, flag: &str, value: &Option<String>)
        ensures
            final(self)@ == old(self)@ + opt_quoted(flag@, *value),
    {
        let ghost before = self@;
        if let Some(v) = value {
            self.push_quoted(flag, v.as_str());
        }
        assert(self@ =~= before + opt_quoted(flag@, *value));
    }

    /// Appends `-Flag n` for a natural number.
    pub fn push_unsigned(&mut self, flag: &str, n: u64)
        ensures
            final(self)@ == old(self)@ + seq![number_arg(flag@, n as int)],
    {
        let mut s = flag.to_string();
        push_char(&mut s, ' ');
        push_decimal(&mut s, n);
        assert(s@ =~= number_arg(flag@, n as int));
        self.push(s);
    }

    /// Appends `-Flag n` for an integer.
    pub fn push_signed(&mut self, flag: &str, n: i64)
        ensures
            final(self)@ == old(self)@ + seq![number_arg(flag@, n as int)],
    {
        let mut s = flag.to_string();
        push_char(&mut s, ' ');
        push_signed_decimal(&mut s, n);
        assert(s@ =~= number_arg(flag@, n as int));
        self.push(s);
    }

    /// Appends `-Flag n` when the `u64` is present.
    pub fn push_opt_u64(&mut self, flag: &str, value: Option<u64>)
        ensures
            final(self)@ == old(self)@ + opt_u64(flag@, value),
    {
        let ghost before = self@;
        if let Some(n) = value {
            self.push_unsigned(flag, n);
        }
        assert(self@ =~= before + opt_u64(flag@, value));
    }

    /// Appends `-Flag n` when the `u32` is present.
    pub fn push_opt_u32(&mut self, flag: &str, value: Option<u32>)
        ensures
            final(self)@ == old(self)@ + opt_u32(flag@, value),
    {
        let ghost before = self@;
        if let Some(n) = value {
            self.push_unsigned(flag, n as u64);
        }
        assert(self@ =~= before + opt_u32(flag@, value));
    }

    /// Appends `-Flag n` when the `u16` is present.
    pub fn push_opt_u16(&mut self, flag: &str, value: Option<u16>)
        ensures
            final(self)@ == old(self)@ + opt_u16(flag@, value),
    {
        let ghost before = self@;
        if let Some(n) = value {
            self.push_unsigned(flag, n as u64);
        }
        assert(self@ =~= before + opt_u16(flag@, value));
    }

    /// Appends `-Flag n` when the `i64` is present.
    pub fn push_opt_i64(&mut self, flag: &str, value: Option<i64>)
        ensures
            final(self)@ == old(self)@ + opt_i64(flag@, value),
    {
        let ghost before = self@;
        if let Some(n) = value {
            self.push_signed(flag, n);
        }
        assert(self@ =~= before + opt_i64(flag@, value));
    }

    /// Appends `-Flag n` when the `i32` is present.
    pub fn push_opt_i32(&mut self, flag: &str, value: Option<i32>)
        ensures
            final(self)@ == old(self)@ + opt_i32(flag@, value),
    {
        let ghost before = self@;
        if let Some(n) = value {
            self.push_signed(flag, n as i64);
        }
        assert(self@ =~= before + opt_i32(flag@, value));
    }

    /// Appends `-Flag $true` or `-Flag $false`.
    pub fn push_bool(&mut self, flag: &str, b: bool)
        ensures
            final(self)@ == old(self)@ + seq![bool_arg(flag@, b)],
    {
        let mut s = flag.to_string();
        push_char(&mut s, ' ');
        push_ps_bool(&mut s, b);
        assert(s@ =~= bool_arg(flag@, b));
        self.push(s);
    }

    /// Appends `-Flag $b` when the value is present.
    pub fn push_opt_bool(&mut self, flag: &str, value: Option<bool>)
        ensures
            final(self)@ == old(self)@ + opt_bool(flag@, value),
    {
        let ghost before = self@;
        if let Some(b) = value {
            self.push_bool(flag, b);
        }
        assert(self@ =~= before + opt_bool(flag@, value));
    }

    /// Appends `-Flag:$b` when the value is present.
    pub fn push_opt_colon_bool(&mut self, flag: &str, value: Option<bool>)
        ensures
            final(self)@ == old(self)@ + opt_colon_bool(flag@, value),
    {
        let ghost before = self@;
        if let Some(b) = value {
            let mut s = flag.to_string();
            push_char(&mut s, ':');
            push_ps_bool(&mut s, b);
            assert(s@ =~= colon_bool_arg(flag@, b));
            self.push(s);
        }
        assert(self@ =~= before + opt_colon_bool(flag@, value));
    }

    /// Appends the arguments, in order.
    pub fn extend(&mut self, more: Vec<String>)
        ensures
            final(self)@ == old(self)@ + texts(more@),
    {
        let ghost before = self@;
        let ghost added = more@;
        let mut more = more;
        self.items.append(&mut more);
        assert(self@ =~= before + texts(added));
    }

    /// Appends `-Flag 'a','b'`.
    pub fn push_quoted_list(&mut self, flag: &str, values: &[String])
        ensures
            final(self)@ == old(self)@ + seq![list_arg(flag@, values@)],
    {
        let mut s = flag.to_string();
        push_char(&mut s, ' ');
        push_quoted_list_text(&mut s, values);
        assert(s@ =~= list_arg(flag@, values@));
        self.push(s);
    }

    /// Appends `-Flag @('a','b')`.
    pub fn push_quoted_array(&mut self, flag: &str, values: &[String])
        ensures
            final(self)@ == old(self)@ + seq![array_arg(flag@, values@)],
    {
        let mut s = flag.to_string();
        push_char(&mut s, ' ');
        push_char(&mut s, '@');
        push_char(&mut s, '(');
        push_quoted_list_text(&mut s, values);
        push_char(&mut s, ')');
        assert(s@ =~= array_arg(flag@, values@));
        self.push(s);
    }

    /// Appends `-Flag 'a','b'` when the list is present.
    pub fn push_opt_list(&mut self, flag: &str, values: &Option<Vec<String>>)
        ensures
            final(self)@ == old(self)@ + opt_list(flag@, *values),
    {
        let ghost before = self@;
        if let Some(v) = values {
            self.push_quoted_list(flag, v.as_slice());
        }
        assert(self@ =~= before + opt_list(flag@, *values));
    }

    /// Appends `-Flag @('a','b')` when the list is present.
    pub fn push_opt_array(&mut self, flag: &str, values: &Option<Vec<String>>)
        ensures
            final(self)@ == old(self)@ + opt_array(flag@, *values),
    {
        let ghost before = self@;
        if let Some(v) = values {
            self.push_quoted_array(flag, v.as_slice());
        }
        assert(self@ =~= before + opt_array(flag@, *values));
    }

    /// Appends `-ManagementOS`, or `-VMName 'name'` when a machine is named.
    pub fn push_target(&mut self, management_os: bool, vm_name: &Option<String>)
        ensures
            final(self)@ == old(self)@ + target_args(management_os, *vm_name),
    {
        let ghost before = self@;
        if management_os {
            self.push_literal("-ManagementOS");
        } else {
            self.push_opt_quoted("-VMName", vm_name);
        }
        assert(self@ =~= before + target_args(management_os, *vm_name));
    }

    /// Appends `-Flag 'value'` with the value trimmed, when it is present
    /// and not blank.
    pub fn push_opt_trimmed_quoted(&mut self, flag: &str, value: &Option<String>)
        ensures
            final(self)@ == old(self)@ + opt_trimmed_quoted(flag@, *value),
    {
        let ghost before = self@;
        if let Some(v) = value {
            if !text_is_blank(v.as_str()) {
                let t = trimmed(v.as_str());
                self.push_quoted(flag, t.as_str());
            }
        }
        assert(self@ =~= before + opt_trimmed_quoted(flag@, *value));
    }

    /// Appends `-Flag 1,2,3`.
    pub fn push_number_list(&mut self, flag: &str, values: &Vec<i32>)
        ensures
            final(self)@ == old(self)@ + seq![number_list_arg(flag@, values@)],
    {
        let mut s = flag.to_string();
        push_char(&mut s, ' ');
        let ghost prefix = s@;
        let mut i: usize = 0;
        while i < values.len()
            invariant
                i <= values.len(),
                s@ == prefix + join(
                    values@.take(i as int).map_values(|n: i32| signed_decimal(n as int)),
                    seq![','],
                ),
            decreases values.len() - i,
        {
            let ghost items = values@.take(i as int).map_values(
                |n: i32| signed_decimal(n as int),
            );
            if i > 0 {
                push_char(&mut s, ',');
            }
            push_signed_decimal(&mut s, values[i] as i64);
            let ghost next = values@.take(i + 1).map_values(|n: i32| signed_decimal(n as int));
            assert(next.drop_last() =~= items);
            assert(s@ =~= prefix + join(next, seq![',']));
            i = i + 1;
        }
        assert(values@.take(values.len() as int) =~= values@);
        assert(s@ =~= number_list_arg(flag@, values@));
        self.push(s);
    }

    /// The arguments joined with single spaces.
    pub fn to_command(&self) -> (r: String)
        ensures
            r@ == join(self@, seq![' ']),
    {
        let mut s = String::new();
        let mut i: usize = 0;
        while i < self.items.len()
            invariant
                i <= self.items.len(),
                s@ == join(self@.take(i as int), seq![' ']),
            decreases self.items.len() - i,
        {
            if i > 0 {
                push_char(&mut s, ' ');
            }
            s.append(self.items[i].as_str());
            assert(self@.take(i + 1).drop_last() =~= self@.take(i as int));
            assert(s@ =~= join(self@.take(i + 1), seq![' ']));
            i = i + 1;
        }
        assert(self@.take(self.items.len() as int) =~= self@);
        s
    }

    /// The arguments joined with single spaces, followed by `tail`.
    pub fn to_command_with(&self, tail: &str) -> (r: String)
        ensures
            r@ == join(self@, seq![' ']) + tail@,
    {
        let mut s = self.to_command();
        s.append(tail);
        s
    }
}

/// Appends the values in single quotes, separated by commas.
pub fn push_quoted_list_text(s: &mut String, values: &[String])
    ensures
        final(s)@ == old(s)@ + quoted_list(values@),
{
    let ghost prefix = s@;
    let mut i: usize = 0;
    while i < values.len()
        invariant
            i <= values.len(),
            s@ == prefix + join(quoted_items(values@.take(i as int)), seq![',']),
        decreases values.len() - i,
    {
        let ghost items = quoted_items(values@.take(i as int));
        if i > 0 {
            push_char(s, ',');
        }
        push_char(s, '\'');
        push_ps_escaped(s, values[i].as_str());
        push_char(s, '\'');
        let ghost next = quoted_items(values@.take(i + 1));
        assert(next.drop_last() =~= items);
        assert(next.last() == quoted(values@[i as int]@));
        assert(s@ =~= prefix + join(next, seq![',']));
        i = i + 1;
    }
    assert(values@.take(values.len() as int) =~= values@);
}

/// Appends `$true` or `$false`.
fn push_ps_bool(s: &mut String, b: bool)
    ensures
        final(s)@ == old(s)@ + ps_bool(b),
{
    push_char(s, '$');
    if b {
        push_char(s, 't');
        push_char(s, 'r');
        push_char(s, 'u');
        push_char(s, 'e');
    } else {
        push_char(s, 'f');
        push_char(s, 'a');
        push_char(s, 'l');
        push_char(s, 's');
        push_char(s, 'e');
    }
    assert(s@ =~= old(s)@ + ps_bool(b));
}

} // verus!
