//! A reversible text encoding of the row projections.
//!
//! Each value is encoded as a line-oriented record: every text field is
//! escaped (backslash and newline are written as two-character escapes)
//! and terminated by a newline; every key flag is written as three decimal
//! digits. Decoding parses a record back; encoding then decoding any value
//! yields a value equal in all fields, which the lemmas at the end of the
//! module prove.

use vstd::prelude::*;
use vstd::string::StrSliceExecFns;
use vstd::string::StringExecFns;

use crate::info::ColumnInfo;
use crate::info::ColumnModel;
use crate::info::DatabaseInfo;
use crate::info::DatabaseModel;
use crate::info::TableInfo;
use crate::info::TableModel;

verus! {

/// How one character is escaped: backslash and newline become a
/// two-character escape, anything else stands for itself.
pub open spec fn esc_char(c: char) -> Seq<char> {
    if c == '\\' {
        seq!['\\', '\\']
    } else if c == '\n' {
        seq!['\\', 'n']
    } else {
        seq![c]
    }
}

/// The escaped form of a text field.
pub open spec fn esc(s: Seq<char>) -> Seq<char>
    decreases s.len(),
{
    if s.len() == 0 {
        Seq::empty()
    } else {
        esc_char(s[0]) + esc(s.drop_first())
    }
}

/// One encoded field: the escaped text, terminated by a newline.
pub open spec fn enc_field(s: Seq<char>) -> Seq<char> {
    esc(s) + seq!['\n']
}

/// Parses one encoded field off the front of `s`: the decoded text and
/// what follows the terminating newline, or nothing if `s` does not start
/// with a well-formed field.
pub open spec fn unesc_prefix(s: Seq<char>) -> Option<(Seq<char>, Seq<char>)>
    decreases s.len(),
{
    if s.len() == 0 {
        None
    } else if s[0] == '\n' {
        Some((Seq::empty(), s.drop_first()))
    } else if s[0] == '\\' {
        if s.len() < 2 {
            None
        } else if s[1] == '\\' {
            match unesc_prefix(s.skip(2)) {
                Some(fr) => Some((seq!['\\'] + fr.0, fr.1)),
                None => None,
            }
        } else if s[1] == 'n' {
            match unesc_prefix(s.skip(2)) {
                Some(fr) => Some((seq!['\n'] + fr.0, fr.1)),
                None => None,
            }
        } else {
            None
        }
    } else {
        match unesc_prefix(s.drop_first()) {
            Some(fr) => Some((seq![s[0]] + fr.0, fr.1)),
            None => None,
        }
    }
}

/// Escaping one more character appends its escape.
pub proof fn lemma_esc_snoc(s: Seq<char>, c: char)
    ensures
        esc(s.push(c)) == esc(s) + esc_char(c),
    decreases s.len(),
{
    if s.len() == 0 {
        assert(s.push(c) =~= seq![c]);
        assert(seq![c].drop_first() =~= Seq::<char>::empty());
        assert(esc(Seq::<char>::empty()) == Seq::<char>::empty());
        assert(esc(seq![c]) =~= esc_char(c));
        assert(esc(s) + esc_char(c) =~= esc_char(c));
    } else {
        assert(s.push(c).drop_first() =~= s.drop_first().push(c));
        assert(s.push(c)[0] == s[0]);
        lemma_esc_snoc(s.drop_first(), c);
        assert(esc(s.push(c)) == esc_char(s[0]) + (esc(s.drop_first()) + esc_char(c)));
        assert(esc_char(s[0]) + (esc(s.drop_first()) + esc_char(c)) =~= (esc_char(s[0]) + esc(
            s.drop_first(),
        )) + esc_char(c));
    }
}

/// Parsing an encoded field off any continuation recovers the field and
/// the continuation.
pub proof fn lemma_unesc_enc_field(f: Seq<char>, rest: Seq<char>)
    ensures
        unesc_prefix(enc_field(f) + rest) == Some((f, rest)),
    decreases f.len(),
{
    let s = enc_field(f) + rest;
    if f.len() == 0 {
        assert(esc(f) =~= Seq::<char>::empty());
        assert(s =~= seq!['\n'] + rest);
        assert(s[0] == '\n');
        assert(s.drop_first() =~= rest);
        assert(f =~= Seq::<char>::empty());
    } else {
        let c = f[0];
        let s2 = enc_field(f.drop_first()) + rest;
        assert(esc(f) == esc_char(c) + esc(f.drop_first()));
        assert(s =~= esc_char(c) + s2);
        lemma_unesc_enc_field(f.drop_first(), rest);
        if c == '\\' {
            assert(s[0] == '\\' && s[1] == '\\');
            assert(s.len() >= 2);
            assert(s.skip(2) =~= s2);
            assert(seq!['\\'] + f.drop_first() =~= f);
        } else if c == '\n' {
            assert(s[0] == '\\' && s[1] == 'n');
            assert(s.skip(2) =~= s2);
            assert(seq!['\n'] + f.drop_first() =~= f);
        } else {
            assert(s[0] == c);
            assert(s.drop_first() =~= s2);
            assert(seq![c] + f.drop_first() =~= f);
        }
    }
}

/// The character for one decimal digit.
pub open spec fn digit_char(d: int) -> char {
    if d == 0 {
        '0'
    } else if d == 1 {
        '1'
    } else if d == 2 {
        '2'
    } else if d == 3 {
        '3'
    } else if d == 4 {
        '4'
    } else if d == 5 {
        '5'
    } else if d == 6 {
        '6'
    } else if d == 7 {
        '7'
    } else if d == 8 {
        '8'
    } else {
        '9'
    }
}

/// The value of one decimal digit character, or 10 for any other
/// character.
pub open spec fn digit_val(c: char) -> int {
    if c == '0' {
        0
    } else if c == '1' {
        1
    } else if c == '2' {
        2
    } else if c == '3' {
        3
    } else if c == '4' {
        4
    } else if c == '5' {
        5
    } else if c == '6' {
        6
    } else if c == '7' {
        7
    } else if c == '8' {
        8
    } else if c == '9' {
        9
    } else {
        10
    }
}

/// One encoded key flag: exactly three decimal digits.
pub open spec fn enc_flag(v: u8) -> Seq<char> {
    seq![
        digit_char(v as int / 100),
        digit_char((v as int / 10) % 10),
        digit_char(v as int % 10),
    ]
}

/// Parses one encoded key flag off the front of `s`.
pub open spec fn parse_flag(s: Seq<char>) -> Option<(u8, Seq<char>)> {
    if s.len() < 3 {
        None
    } else {
        let v = digit_val(s[0]) * 100 + digit_val(s[1]) * 10 + digit_val(s[2]);
        if digit_val(s[0]) <= 9 && digit_val(s[1]) <= 9 && digit_val(s[2]) <= 9 && v <= 255 {
            Some((v as u8, s.skip(3)))
        } else {
            None
        }
    }
}

/// Parsing an encoded flag off any continuation recovers the flag and the
/// continuation.
pub proof fn lemma_parse_enc_flag(v: u8, rest: Seq<char>)
    ensures
        parse_flag(enc_flag(v) + rest) == Some((v, rest)),
{
    let s = enc_flag(v) + rest;
    assert(s.len() >= 3);
    assert(s[0] == digit_char(v as int / 100));
    assert(s[1] == digit_char((v as int / 10) % 10));
    assert(s[2] == digit_char(v as int % 10));
    assert(v as int / 100 <= 9);
    assert(digit_val(digit_char(v as int / 100)) == v as int / 100);
    assert(digit_val(digit_char((v as int / 10) % 10)) == (v as int / 10) % 10);
    assert(digit_val(digit_char(v as int % 10)) == v as int % 10);
    assert((v as int / 100) * 100 + ((v as int / 10) % 10) * 10 + v as int % 10 == v as int);
    assert(s.skip(3) =~= rest);
}

/// The encoding of a database record: its name, as one field.
pub open spec fn database_enc(m: DatabaseModel) -> Seq<char> {
    enc_field(m.name)
}

/// The decoding of a database record.
pub open spec fn database_dec(s: Seq<char>) -> Option<DatabaseModel> {
    match unesc_prefix(s) {
        Some(fr) => if fr.1.len() == 0 {
            Some(DatabaseModel { name: fr.0 })
        } else {
            None
        },
        None => None,
    }
}

/// The encoding of a table record: name, database and engine fields.
pub open spec fn table_enc(m: TableModel) -> Seq<char> {
    enc_field(m.name) + enc_field(m.database) + enc_field(m.engine)
}

/// The decoding of a table record.
pub open spec fn table_dec(s: Seq<char>) -> Option<TableModel> {
    match unesc_prefix(s) {
        None => None,
        Some(fr1) => match unesc_prefix(fr1.1) {
            None => None,
            Some(fr2) => match unesc_prefix(fr2.1) {
                None => None,
                Some(fr3) => if fr3.1.len() == 0 {
                    Some(TableModel { name: fr1.0, database: fr2.0, engine: fr3.0 })
                } else {
                    None
                },
            },
        },
    }
}

/// The encoding of a column record: the five text fields, then the four
/// key flags.
pub open spec fn column_enc(m: ColumnModel) -> Seq<char> {
    enc_field(m.name) + enc_field(m.column_type) + enc_field(m.default_type) + enc_field(
        m.default_expression,
    ) + enc_field(m.comment) + enc_flag(m.is_in_partition_key) + enc_flag(m.is_in_sorting_key)
        + enc_flag(m.is_in_primary_key) + enc_flag(m.is_in_sampling_key)
}

/// The decoding of a column record.
pub open spec fn column_dec(s: Seq<char>) -> Option<ColumnModel> {
    match unesc_prefix(s) {
        None => None,
        Some(fr1) => match unesc_prefix(fr1.1) {
            None => None,
            Some(fr2) => match unesc_prefix(fr2.1) {
                None => None,
                Some(fr3) => match unesc_prefix(fr3.1) {
                    None => None,
                    Some(fr4) => match unesc_prefix(fr4.1) {
                        None => None,
                        Some(fr5) => match parse_flag(fr5.1) {
                            None => None,
                            Some(g1) => match parse_flag(g1.1) {
                                None => None,
                                Some(g2) => match parse_flag(g2.1) {
                                    None => None,
                                    Some(g3) => match parse_flag(g3.1) {
                                        None => None,
                                        Some(g4) => if g4.1.len() == 0 {
                                            Some(
                                                ColumnModel {
                                                    name: fr1.0,
                                                    column_type: fr2.0,
                                                    default_type: fr3.0,
                                                    default_expression: fr4.0,
                                                    comment: fr5.0,
                                                    is_in_partition_key: g1.0,
                                                    is_in_sorting_key: g2.0,
                                                    is_in_primary_key: g3.0,
                                                    is_in_sampling_key: g4.0,
                                                },
                                            )
                                        } else {
                                            None
                                        },
                                    },
                                },
                            },
                        },
                    },
                },
            },
        },
    }
}

/// Decoding the encoding of a database record yields it back, whatever
/// its field holds.
pub proof fn lemma_database_roundtrip(m: DatabaseModel)
    ensures
        database_dec(database_enc(m)) == Some(m),
{
    assert(database_enc(m) =~= enc_field(m.name) + Seq::<char>::empty());
    lemma_unesc_enc_field(m.name, Seq::<char>::empty());
}

/// Decoding the encoding of a table record yields it back, whatever its
/// fields hold.
pub proof fn lemma_table_roundtrip(m: TableModel)
    ensures
        table_dec(table_enc(m)) == Some(m),
{
    let r3 = enc_field(m.engine) + Seq::<char>::empty();
    let r2 = enc_field(m.database) + r3;
    assert(table_enc(m) =~= enc_field(m.name) + r2);
    lemma_unesc_enc_field(m.name, r2);
    lemma_unesc_enc_field(m.database, r3);
    lemma_unesc_enc_field(m.engine, Seq::<char>::empty());
}

/// Decoding the encoding of a column record yields it back, whatever its
/// fields hold.
pub proof fn lemma_column_roundtrip(m: ColumnModel)
    ensures
        column_dec(column_enc(m)) == Some(m),
{
    let r9 = enc_flag(m.is_in_sampling_key) + Seq::<char>::empty();
    let r8 = enc_flag(m.is_in_primary_key) + r9;
    let r7 = enc_flag(m.is_in_sorting_key) + r8;
    let r6 = enc_flag(m.is_in_partition_key) + r7;
    let r5 = enc_field(m.comment) + r6;
    let r4 = enc_field(m.default_expression) + r5;
    let r3 = enc_field(m.default_type) + r4;
    let r2 = enc_field(m.column_type) + r3;
    assert(column_enc(m) =~= enc_field(m.name) + r2);
    lemma_unesc_enc_field(m.name, r2);
    lemma_unesc_enc_field(m.column_type, r3);
    lemma_unesc_enc_field(m.default_type, r4);
    lemma_unesc_enc_field(m.default_expression, r5);
    lemma_unesc_enc_field(m.comment, r6);
    lemma_parse_enc_flag(m.is_in_partition_key, r7);
    lemma_parse_enc_flag(m.is_in_sorting_key, r8);
    lemma_parse_enc_flag(m.is_in_primary_key, r9);
    lemma_parse_enc_flag(m.is_in_sampling_key, Seq::<char>::empty());
}

/// Appends the escaped form of `s` to `out`.
fn append_escaped(out: &mut String, s: &str)
    ensures
        final(out)@ == old(out)@ + esc(s@),
{
    let n = s.unicode_len();
    let mut i: usize = 0;
    while i < n
        invariant
            n == s@.len(),
            0 <= i <= n,
            out@ == old(out)@ + esc(s@.subrange(0, i as int)),
        decreases n - i,
    {
        let c = s.get_char(i);
        proof {
            assert(s@.subrange(0, i as int).push(s@[i as int]) =~= s@.subrange(0, i as int + 1));
            lemma_esc_snoc(s@.subrange(0, i as int), s@[i as int]);
        }
        if c == '\\' {
            out.append("\\\\");
            proof {
                reveal_strlit("\\\\");
                assert("\\\\"@ =~= esc_char(c));
                assert(old(out)@ + esc(s@.subrange(0, i as int)) + esc_char(c) =~= old(out)@ + esc(
                    s@.subrange(0, i as int + 1),
                ));
            }
        } else if c == '\n' {
            out.append("\\n");
            proof {
                reveal_strlit("\\n");
                assert("\\n"@ =~= esc_char(c));
                assert(old(out)@ + esc(s@.subrange(0, i as int)) + esc_char(c) =~= old(out)@ + esc(
                    s@.subrange(0, i as int + 1),
                ));
            }
        } else {
            let piece = s.substring_char(i, i + 1);
            out.append(piece);
            proof {
                assert(piece@ =~= esc_char(c));
                assert(old(out)@ + esc(s@.subrange(0, i as int)) + esc_char(c) =~= old(out)@ + esc(
                    s@.subrange(0, i as int + 1),
                ));
            }
        }
        i = i + 1;
    }
    proof {
        assert(s@.subrange(0, n as int) =~= s@);
    }
}

/// Appends one encoded field to `out`.
fn append_field(out: &mut String, s: &str)
    ensures
        final(out)@ == old(out)@ + enc_field(s@),
{
    append_escaped(out, s);
    out.append("\n");
    proof {
        reveal_strlit("\n");
        assert("\n"@ =~= seq!['\n']);
        assert(old(out)@ + esc(s@) + seq!['\n'] =~= old(out)@ + enc_field(s@));
    }
}

/// Appends the character of one decimal digit to `out`.
pub(crate) fn append_digit(out: &mut String, d: u8)
    requires
        d <= 9,
    ensures
        final(out)@ == old(out)@ + seq![digit_char(d as int)],
{
    if d == 0 {
        out.append("0");
        proof {
            reveal_strlit("0");
            assert("0"@ =~= seq![digit_char(d as int)]);
        }
    } else if d == 1 {
        out.append("1");
        proof {
            reveal_strlit("1");
            assert("1"@ =~= seq![digit_char(d as int)]);
        }
    } else if d == 2 {
        out.append("2");
        proof {
            reveal_strlit("2");
            assert("2"@ =~= seq![digit_char(d as int)]);
        }
    } else if d == 3 {
        out.append("3");
        proof {
            reveal_strlit("3");
            assert("3"@ =~= seq![digit_char(d as int)]);
        }
    } else if d == 4 {
        out.append("4");
        proof {
            reveal_strlit("4");
            assert("4"@ =~= seq![digit_char(d as int)]);
        }
    } else if d == 5 {
        out.append("5");
        proof {
            reveal_strlit("5");
            assert("5"@ =~= seq![digit_char(d as int)]);
        }
    } else if d == 6 {
        out.append("6");
        proof {
            reveal_strlit("6");
            assert("6"@ =~= seq![digit_char(d as int)]);
        }
    } else if d == 7 {
        out.append("7");
        proof {
            reveal_strlit("7");
            assert("7"@ =~= seq![digit_char(d as int)]);
        }
    } else if d == 8 {
        out.append("8");
        proof {
            reveal_strlit("8");
            assert("8"@ =~= seq![digit_char(d as int)]);
        }
    } else {
        out.append("9");
        proof {
            reveal_strlit("9");
            assert("9"@ =~= seq![digit_char(d as int)]);
        }
    }
}

/// Appends one encoded key flag to `out`.
fn append_flag(out: &mut String, v: u8)
    ensures
        final(out)@ == old(out)@ + enc_flag(v),
{
    append_digit(out, v / 100);
    append_digit(out, (v / 10) % 10);
    append_digit(out, v % 10);
    proof {
        assert(old(out)@ + seq![digit_char(v as int / 100)] + seq![
            digit_char((v as int / 10) % 10),
        ] + seq![digit_char(v as int % 10)] =~= old(out)@ + enc_flag(v));
    }
}

/// Encodes a database record.
pub fn encode_database_info(v: &DatabaseInfo) -> (r: String)
    ensures
        r@ == database_enc(v@),
{
    let mut out = String::new();
    append_field(&mut out, v.name.as_str());
    proof {
        assert(Seq::<char>::empty() + enc_field(v.name@) =~= database_enc(v@));
    }
    out
}

/// Encodes a table record.
pub fn encode_table_info(v: &TableInfo) -> (r: String)
    ensures
        r@ == table_enc(v@),
{
    let mut out = String::new();
    append_field(&mut out, v.name.as_str());
    append_field(&mut out, v.database.as_str());
    append_field(&mut out, v.engine.as_str());
    proof {
        assert(Seq::<char>::empty() + enc_field(v.name@) + enc_field(v.database@) + enc_field(
            v.engine@,
        ) =~= table_enc(v@));
    }
    out
}

/// Encodes a column record.
pub fn encode_column_info(v: &ColumnInfo) -> (r: String)
    ensures
        r@ == column_enc(v@),
{
    let mut out = String::new();
    append_field(&mut out, v.name.as_str());
    append_field(&mut out, v.column_type.as_str());
    append_field(&mut out, v.default_type.as_str());
    append_field(&mut out, v.default_expression.as_str());
    append_field(&mut out, v.comment.as_str());
    append_flag(&mut out, v.is_in_partition_key);
    append_flag(&mut out, v.is_in_sorting_key);
    append_flag(&mut out, v.is_in_primary_key);
    append_flag(&mut out, v.is_in_sampling_key);
    proof {
        assert(Seq::<char>::empty() + enc_field(v.name@) + enc_field(v.column_type@) + enc_field(
            v.default_type@,
        ) + enc_field(v.default_expression@) + enc_field(v.comment@) + enc_flag(
            v.is_in_partition_key,
        ) + enc_flag(v.is_in_sorting_key) + enc_flag(v.is_in_primary_key) + enc_flag(
            v.is_in_sampling_key,
        ) =~= column_enc(v@));
    }
    out
}

/// Parses one encoded field of `s` starting at character `from`: the
/// decoded text and the position after the terminating newline.
fn parse_field(s: &str, from: usize) -> (r: Option<(String, usize)>)
    requires
        from <= s@.len(),
    ensures
        match r {
            Some(fj) => from < fj.1 <= s@.len() && unesc_prefix(s@.skip(from as int)) == Some(
                (fj.0@, s@.skip(fj.1 as int)),
            ),
            None => unesc_prefix(s@.skip(from as int)) is None,
        },
{
    let n = s.unicode_len();
    let mut i: usize = from;
    let mut out = String::new();
    while i < n
        invariant
            n == s@.len(),
            from <= i <= n,
            match unesc_prefix(s@.skip(i as int)) {
                Some(fr) => unesc_prefix(s@.skip(from as int)) == Some::<(Seq<char>, Seq<char>)>(
                    (out@ + fr.0, fr.1),
                ),
                None => unesc_prefix(s@.skip(from as int)) is None,
            },
        decreases n - i,
    {
        let ghost tail = s@.skip(i as int);
        proof {
            assert(tail[0] == s@[i as int]);
            assert(tail.drop_first() =~= s@.skip(i as int + 1));
        }
        let c = s.get_char(i);
        if c == '\n' {
            proof {
                assert(unesc_prefix(tail) == Some((Seq::<char>::empty(), s@.skip(i as int + 1))));
                assert(out@ + Seq::<char>::empty() =~= out@);
            }
            return Some((out, i + 1));
        } else if c == '\\' {
            if i + 1 >= n {
                proof {
                    assert(tail.len() < 2);
                }
                return None;
            }
            let c2 = s.get_char(i + 1);
            proof {
                assert(tail[1] == s@[i as int + 1]);
                assert(tail.skip(2) =~= s@.skip(i as int + 2));
            }
            if c2 == '\\' {
                let ghost out0 = out@;
                out.append("\\");
                proof {
                    reveal_strlit("\\");
                    assert("\\"@ =~= seq!['\\']);
                    if let Some(fr) = unesc_prefix(s@.skip(i as int + 2)) {
                        assert(out0 + (seq!['\\'] + fr.0) =~= out@ + fr.0);
                    }
                }
                i = i + 2;
            } else if c2 == 'n' {
                let ghost out0 = out@;
                out.append("\n");
                proof {
                    reveal_strlit("\n");
                    assert("\n"@ =~= seq!['\n']);
                    if let Some(fr) = unesc_prefix(s@.skip(i as int + 2)) {
                        assert(out0 + (seq!['\n'] + fr.0) =~= out@ + fr.0);
                    }
                }
                i = i + 2;
            } else {
                return None;
            }
        } else {
            let piece = s.substring_char(i, i + 1);
            let ghost out0 = out@;
            out.append(piece);
            proof {
                assert(piece@ =~= seq![s@[i as int]]);
                if let Some(fr) = unesc_prefix(s@.skip(i as int + 1)) {
                    assert(out0 + (seq![s@[i as int]] + fr.0) =~= out@ + fr.0);
                }
            }
            i = i + 1;
        }
    }
    proof {
        assert(s@.skip(n as int) =~= Seq::<char>::empty());
    }
    None
}

/// The value of one decimal digit character, or 10 for any other.
fn digit_of(c: char) -> (d: u8)
    ensures
        d as int == digit_val(c),
{
    if c == '0' {
        0
    } else if c == '1' {
        1
    } else if c == '2' {
        2
    } else if c == '3' {
        3
    } else if c == '4' {
        4
    } else if c == '5' {
        5
    } else if c == '6' {
        6
    } else if c == '7' {
        7
    } else if c == '8' {
        8
    } else if c == '9' {
        9
    } else {
        10
    }
}

/// Parses one encoded key flag of `s` starting at character `from`.
fn parse_flag_at(s: &str, from: usize) -> (r: Option<(u8, usize)>)
    requires
        from <= s@.len(),
    ensures
        match r {
            Some(vj) => vj.1 == from + 3 && vj.1 <= s@.len() && parse_flag(s@.skip(from as int))
                == Some((vj.0, s@.skip(vj.1 as int))),
            None => parse_flag(s@.skip(from as int)) is None,
        },
{
    let n = s.unicode_len();
    if n - from < 3 {
        return None;
    }
    let ghost tail = s@.skip(from as int);
    proof {
        assert(tail[0] == s@[from as int]);
        assert(tail[1] == s@[from as int + 1]);
        assert(tail[2] == s@[from as int + 2]);
        assert(tail.skip(3) =~= s@.skip(from as int + 3));
    }
    let d0 = digit_of(s.get_char(from));
    let d1 = digit_of(s.get_char(from + 1));
    let d2 = digit_of(s.get_char(from + 2));
    if d0 > 9 || d1 > 9 || d2 > 9 {
        return None;
    }
    let v: u16 = d0 as u16 * 100 + d1 as u16 * 10 + d2 as u16;
    if v > 255 {
        return None;
    }
    Some((v as u8, from + 3))
}

/// Decodes a database record; yields nothing unless the whole of `s` is
/// one well-formed record.
pub fn decode_database_info(s: &str) -> (r: Option<DatabaseInfo>)
    ensures
        match r {
            Some(v) => database_dec(s@) == Some(v@),
            None => database_dec(s@) is None,
        },
{
    proof {
        assert(s@.skip(0) =~= s@);
    }
    match parse_field(s, 0) {
        None => None,
        Some((name, j)) => {
            let n = s.unicode_len();
            if j == n {
                proof {
                    assert(s@.skip(j as int).len() == 0);
                }
                Some(DatabaseInfo { name })
            } else {
                None
            }
        },
    }
}

/// Decodes a table record; yields nothing unless the whole of `s` is one
/// well-formed record.
pub fn decode_table_info(s: &str) -> (r: Option<TableInfo>)
    ensures
        match r {
            Some(v) => table_dec(s@) == Some(v@),
            None => table_dec(s@) is None,
        },
{
    proof {
        assert(s@.skip(0) =~= s@);
    }
    let n = s.unicode_len();
    match parse_field(s, 0) {
        None => None,
        Some((name, j1)) => match parse_field(s, j1) {
            None => None,
            Some((database, j2)) => match parse_field(s, j2) {
                None => None,
                Some((engine, j3)) => {
                    if j3 == n {
                        proof {
                            assert(s@.skip(j3 as int).len() == 0);
                        }
                        Some(TableInfo { name, database, engine })
                    } else {
                        None
                    }
                },
            },
        },
    }
}

/// Decodes a column record; yields nothing unless the whole of `s` is one
/// well-formed record.
pub fn decode_column_info(s: &str) -> (r: Option<ColumnInfo>)
    ensures
        match r {
            Some(v) => column_dec(s@) == Some(v@),
            None => column_dec(s@) is None,
        },
{
    proof {
        assert(s@.skip(0) =~= s@);
    }
    let n = s.unicode_len();
    match parse_field(s, 0) {
        None => None,
        Some((name, j1)) => match parse_field(s, j1) {
            None => None,
            Some((column_type, j2)) => match parse_field(s, j2) {
                None => None,
                Some((default_type, j3)) => match parse_field(s, j3) {
                    None => None,
                    Some((default_expression, j4)) => match parse_field(s, j4) {
                        None => None,
                        Some((comment, j5)) => match parse_flag_at(s, j5) {
                            None => None,
                            Some((f1, j6)) => match parse_flag_at(s, j6) {
                                None => None,
                                Some((f2, j7)) => match parse_flag_at(s, j7) {
                                    None => None,
                                    Some((f3, j8)) => match parse_flag_at(s, j8) {
                                        None => None,
                                        Some((f4, j9)) => {
                                            if j9 == n {
                                                proof {
                                                    assert(s@.skip(j9 as int).len() == 0);
                                                }
                                                Some(
                                                    ColumnInfo {
                                                        name,
                                                        column_type,
                                                        default_type,
                                                        default_expression,
                                                        comment,
                                                        is_in_partition_key: f1,
                                                        is_in_sorting_key: f2,
                                                        is_in_primary_key: f3,
                                                        is_in_sampling_key: f4,
                                                    },
                                                )
                                            } else {
                                                None
                                            }
                                        },
                                    },
                                },
                            },
                        },
                    },
                },
            },
        },
    }
}

} // verus!
