//! Text for the shell: how a path or a command is shown so that it can be
//! pasted back.

use vstd::prelude::*;

use crate::path::names;
use crate::text;

verus! {

/// The characters that a shell reads as more than themselves.
pub open spec fn bash_special(c: char) -> bool {
    c == ' ' || c == '"' || c == '\'' || c == '\\' || c == '$' || c == '`' || c == '&' || c == '|'
        || c == ';' || c == '<' || c == '>' || c == '!' || c == '(' || c == ')' || c == '['
        || c == ']'
}

/// What stands for a character in a shell word: a backslash before a
/// special character, nothing for any other.
pub open spec fn spec_escape_in_bash(c: char) -> Option<Seq<char>> {
    if bash_special(c) {
        Some(seq!['\\', c])
    } else {
        None
    }
}

/// The escaped form of a character that the shell treats specially.
pub fn escape_in_bash(c: char) -> (r: Option<&'static str>)
    ensures
        match r {
            Some(s) => spec_escape_in_bash(c) == Some(s@),
            None => spec_escape_in_bash(c) is None,
        },
{
    proof {
        reveal_strlit("\\ ");
        reveal_strlit("\\\"");
        reveal_strlit("\\'");
        reveal_strlit("\\\\");
        reveal_strlit("\\$");
        reveal_strlit("\\`");
        reveal_strlit("\\&");
        reveal_strlit("\\|");
        reveal_strlit("\\;");
        reveal_strlit("\\<");
        reveal_strlit("\\>");
        reveal_strlit("\\!");
        reveal_strlit("\\(");
        reveal_strlit("\\)");
        reveal_strlit("\\[");
        reveal_strlit("\\]");
    }
    let r = if c == ' ' {
        Some("\\ ")
    } else if c == '"' {
        Some("\\\"")
    } else if c == '\'' {
        Some("\\'")
    } else if c == '\\' {
        Some("\\\\")
    } else if c == '$' {
        Some("\\$")
    } else if c == '`' {
        Some("\\`")
    } else if c == '&' {
        Some("\\&")
    } else if c == '|' {
        Some("\\|")
    } else if c == ';' {
        Some("\\;")
    } else if c == '<' {
        Some("\\<")
    } else if c == '>' {
        Some("\\>")
    } else if c == '!' {
        Some("\\!")
    } else if c == '(' {
        Some("\\(")
    } else if c == ')' {
        Some("\\)")
    } else if c == '[' {
        Some("\\[")
    } else if c == ']' {
        Some("\\]")
    } else {
        None
    };
    proof {
        match r {
            Some(s) => {
                assert(s@ =~= seq!['\\', c]);
            },
            None => {},
        }
    }
    r
}

/// The shell word that stands for `s`: every special character after a
/// backslash, every other as it is.
pub open spec fn spec_escape_str(s: Seq<char>) -> Seq<char>
    decreases s.len(),
{
    if s.len() == 0 {
        s
    } else if bash_special(s.last()) {
        spec_escape_str(s.drop_last()).push('\\').push(s.last())
    } else {
        spec_escape_str(s.drop_last()).push(s.last())
    }
}

/// Escapes a word for the shell.
pub fn escape_str(s: &str) -> (r: String)
    ensures
        r@ == spec_escape_str(s@),
{
    let v = text::chars(s);
    let mut out: Vec<char> = Vec::new();
    let mut i: usize = 0;
    while i < v.len()
        invariant
            i <= v.len(),
            out@ == spec_escape_str(v@.take(i as int)),
        decreases v.len() - i,
    {
        assert(v@.take(i + 1).drop_last() == v@.take(i as int));
        match escape_in_bash(v[i]) {
            Some(_) => {
                out.push('\\');
                out.push(v[i]);
            },
            None => {
                out.push(v[i]);
            },
        }
        i += 1;
    }
    assert(v@.take(i as int) == v@);
    text::string(&out)
}

/// A word that needs no escaping is its own escaped form.
pub proof fn lemma_plain_word_is_kept(s: Seq<char>)
    requires
        forall|i: int| 0 <= i < s.len() ==> !bash_special(#[trigger] s[i]),
    ensures
        spec_escape_str(s) == s,
    decreases s.len(),
{
    if s.len() > 0 {
        lemma_plain_word_is_kept(s.drop_last());
        assert(s.drop_last().push(s.last()) == s);
    }
}

/// The text that was last put in place of `key`, if any.
pub open spec fn replaced(reps: Seq<(Seq<char>, Seq<char>)>, key: Seq<char>) -> Option<Seq<char>>
    decreases reps.len(),
{
    if reps.len() == 0 {
        None
    } else if reps.last().0 == key {
        Some(reps.last().1)
    } else {
        replaced(reps.drop_last(), key)
    }
}

/// How one word of a command is shown: by its replacement, or escaped.
pub open spec fn shown(reps: Seq<(Seq<char>, Seq<char>)>, word: Seq<char>) -> Seq<char> {
    match replaced(reps, word) {
        Some(v) => v,
        None => spec_escape_str(word),
    }
}

/// The words of `args`, each shown after a blank.
pub open spec fn shown_args(reps: Seq<(Seq<char>, Seq<char>)>, args: Seq<Seq<char>>) -> Seq<char>
    decreases args.len(),
{
    if args.len() == 0 {
        Seq::empty()
    } else {
        shown_args(reps, args.drop_last()).push(' ') + shown(reps, args.last())
    }
}

/// The texts of a list of replacements.
pub open spec fn replacement_texts(v: Seq<(String, String)>) -> Seq<(Seq<char>, Seq<char>)> {
    v.map_values(|r: (String, String)| (r.0@, r.1@))
}

/// A command that is shown with some of its words replaced by
/// placeholders.
#[derive(Clone, Debug, PartialEq, Eq)]
pub struct FormatCommand {
    pub program: String,
    pub args: Vec<String>,
    pub replacements: Vec<(String, String)>,
}

impl FormatCommand {
    /// A command that is shown as it is.
    pub fn new(program: &str, args: Vec<String>) -> (r: FormatCommand)
        ensures
            r.program@ == program@,
            r.args == args,
            r.replacements@.len() == 0,
    {
        FormatCommand {
            program: text::string(&text::chars(program)),
            args,
            replacements: Vec::new(),
        }
    }

    /// Shows `value` in place of every word that is `key`; a later
    /// replacement of the same word wins.
    pub fn replace(&mut self, key: &str, value: &str)
        ensures
            final(self).program == old(self).program,
            final(self).args == old(self).args,
            replacement_texts(final(self).replacements@) == replacement_texts(
                old(self).replacements@,
            ).push((key@, value@)),
    {
        self.replacements.push(
            (text::string(&text::chars(key)), text::string(&text::chars(value))),
        );
        assert(replacement_texts(self.replacements@) =~= replacement_texts(
            old(self).replacements@,
        ).push((key@, value@)));
    }

    fn lookup(&self, key: &str) -> (r: Option<usize>)
        ensures
            match r {
                Some(i) => i < self.replacements@.len() && replaced(
                    replacement_texts(self.replacements@),
                    key@,
                ) == Some(self.replacements@[i as int].1@),
                None => replaced(replacement_texts(self.replacements@), key@) is None,
            },
    {
        let ghost reps = replacement_texts(self.replacements@);
        let mut i: usize = self.replacements.len();
        assert(reps.take(i as int) == reps);
        while i > 0
            invariant
                i <= self.replacements.len(),
                reps == replacement_texts(self.replacements@),
                replaced(reps, key@) == replaced(reps.take(i as int), key@),
            decreases i,
        {
            assert(reps.take(i as int).drop_last() == reps.take(i - 1));
            assert(reps.take(i as int).last() == reps[i - 1]);
            if text::eq(self.replacements[i - 1].0.as_str(), key) {
                return Some(i - 1);
            }
            i -= 1;
        }
        None
    }

    fn show(&self, word: &str, out: &mut Vec<char>)
        ensures
            final(out)@ == old(out)@ + shown(replacement_texts(self.replacements@), word@),
    {
        match self.lookup(word) {
            Some(i) => text::extend_str(out, self.replacements[i].1.as_str()),
            None => text::extend_str(out, escape_str(word).as_str()),
        }
    }

    /// The command as one line: the program, then every argument after a
    /// blank.
    pub fn render(&self) -> (r: String)
        ensures
            r@ == shown(replacement_texts(self.replacements@), self.program@) + shown_args(
                replacement_texts(self.replacements@),
                names(self.args@),
            ),
    {
        let ghost reps = replacement_texts(self.replacements@);
        let mut out: Vec<char> = Vec::new();
        self.show(self.program.as_str(), &mut out);
        let mut i: usize = 0;
        assert(names(self.args@).take(0) =~= Seq::<Seq<char>>::empty());
        while i < self.args.len()
            invariant
                i <= self.args.len(),
                reps == replacement_texts(self.replacements@),
                out@ == shown(reps, self.program@) + shown_args(
                    reps,
                    names(self.args@).take(i as int),
                ),
            decreases self.args.len() - i,
        {
            assert(names(self.args@).take(i + 1).drop_last() == names(self.args@).take(i as int));
            assert(names(self.args@).take(i + 1).last() == self.args@[i as int]@);
            out.push(' ');
            self.show(self.args[i].as_str(), &mut out);
            assert(out@ =~= shown(reps, self.program@) + shown_args(
                reps,
                names(self.args@).take(i + 1),
            ));
            i += 1;
        }
        assert(names(self.args@).take(i as int) == names(self.args@));
        text::string(&out)
    }
}

} // verus!
