//! The USB vendor channel: commands come in as text lines, answers go out
//! as text lines.
use vstd::prelude::*;
use crate::settings::component::{DirectRead, DirectReadView, SettingsComponent};
use crate::settings::manager::SettingsManager;
use crate::text::push_char;

verus! {

/// The USB vendor channel.
pub struct Vendor;

/// The characters Rust counts as white space (the Unicode `White_Space`
/// property).
pub open spec fn is_space(c: char) -> bool {
    let u = c as u32;
    ||| 0x09 <= u <= 0x0D
    ||| u == 0x20
    ||| u == 0x85
    ||| u == 0xA0
    ||| u == 0x1680
    ||| 0x2000 <= u <= 0x200A
    ||| u == 0x2028
    ||| u == 0x2029
    ||| u == 0x202F
    ||| u == 0x205F
    ||| u == 0x3000
}

/// Whether `c` is white space.
pub fn is_space_char(c: char) -> (r: bool)
    ensures
        r == is_space(c),
{
    let u = c as u32;
    (0x09 <= u && u <= 0x0D) || u == 0x20 || u == 0x85 || u == 0xA0 || u == 0x1680 || (0x2000 <= u
        && u <= 0x200A) || u == 0x2028 || u == 0x2029 || u == 0x202F || u == 0x205F || u == 0x3000
}

/// The words of `s`: its longest runs of characters other than white
/// space, in order.
pub open spec fn words(s: Seq<char>) -> Seq<Seq<char>>
    decreases s.len(),
{
    if s.len() == 0 {
        Seq::empty()
    } else {
        let w = words(s.drop_last());
        let c = s.last();
        if is_space(c) {
            w
        } else if s.len() >= 2 && !is_space(s[s.len() - 2]) {
            w.update(w.len() - 1, w.last().push(c))
        } else {
            w.push(seq![c])
        }
    }
}

/// The words of `line`.
pub fn split_words(line: &str) -> (r: Vec<String>)
    ensures
        r@.map_values(|w: String| w@) == words(line@),
{
    let n = line.unicode_len();
    let mut done: Vec<String> = Vec::new();
    let mut current = String::new();
    let mut i: usize = 0;
    while i < n
        invariant
            n == line@.len(),
            i <= n,
            (if current@.len() == 0 {
                done@.map_values(|w: String| w@)
            } else {
                done@.map_values(|w: String| w@).push(current@)
            }) == words(line@.take(i as int)),
            current@.len() > 0 <==> (i > 0 && !is_space(line@[i - 1])),
        decreases n - i,
    {
        let c = line.get_char(i);
        let ghost s = line@.take(i + 1);
        let ghost old_cur = current@;
        let ghost old_v = done@.map_values(|w: String| w@);
        assert(s.drop_last() =~= line@.take(i as int));
        assert(s.last() == c);
        if is_space_char(c) {
            if current.unicode_len() > 0 {
                done.push(current);
                current = String::new();
            }
        } else {
            if i > 0 {
                assert(s[s.len() - 2] == line@[i - 1]);
            }
            push_char(&mut current, c);
        }
        proof {
            let v = done@.map_values(|w: String| w@);
            if current@.len() == 0 {
                assert(v =~= words(s));
            } else if is_space(c) {
                assert(v.push(current@) =~= words(s));
            } else if old_cur.len() > 0 {
                assert(!is_space(s[s.len() - 2]));
                let w = words(s.drop_last());
                assert(w == old_v.push(old_cur));
                assert(current@ == old_cur.push(c));
                assert(v =~= old_v);
                assert(v.push(current@) =~= w.update(w.len() - 1, w.last().push(c)));
            } else {
                assert(!(s.len() >= 2 && !is_space(s[s.len() - 2])));
                assert(current@ =~= seq![c]);
                assert(v.push(current@) =~= words(s));
            }
        }
        i = i + 1;
    }
    assert(line@.take(n as int) =~= line@);
    if current.unicode_len() > 0 {
        done.push(current);
    }
    proof {
        assert(done@.map_values(|w: String| w@) =~= words(line@));
    }
    done
}

/// A command received on the channel.
pub enum VendorCommand {
    /// "READ_CONFIG component args...": answer with the component's direct
    /// read.
    ReadConfig(String, Vec<String>),
    /// "READ_CONFIG" without a component: answer "invalid args".
    InvalidArgs,
    /// Any other first word: no answer.
    Unknown(String),
}

/// The command a line stands for; a line without words stands for none.
pub fn parse_command(line: &str) -> (r: Option<VendorCommand>)
    ensures
        words(line@).len() == 0 ==> r is None,
        words(line@).len() > 0 && words(line@)[0] == "READ_CONFIG"@ && words(line@).len() >= 2 ==> (
        r matches Some(VendorCommand::ReadConfig(name, args)) && name@ == words(line@)[1]
            && args@.map_values(|a: String| a@) == words(line@).skip(2)),
        words(line@).len() > 0 && words(line@)[0] == "READ_CONFIG"@ && words(line@).len() < 2 ==> (
        r matches Some(VendorCommand::InvalidArgs)),
        words(line@).len() > 0 && words(line@)[0] != "READ_CONFIG"@ ==> (r matches Some(
            VendorCommand::Unknown(w),
        ) && w@ == words(line@)[0]),
{
    let mut w = split_words(line);
    let ghost ws = words(line@);
    assert(w@.len() == ws.len());
    if w.len() == 0 {
        return None;
    }
    assert(w@[0]@ == ws[0]);
    let first = w.remove(0);
    if first != String::from_str("READ_CONFIG") {
        return Some(VendorCommand::Unknown(first));
    }
    if w.len() == 0 {
        return Some(VendorCommand::InvalidArgs);
    }
    assert(w@[0]@ == ws[1]);
    let name = w.remove(0);
    assert(w@.map_values(|a: String| a@) =~= ws.skip(2));
    Some(VendorCommand::ReadConfig(name, w))
}

/// The answer to a command: a component's direct read, "invalid args",
/// or none for an unknown command. A component that has no direct read
/// is not answered.
pub fn answer(settings: &SettingsManager, command: &VendorCommand) -> (r: Option<DirectRead>)
    requires
        settings.wf(),
    ensures
        command matches VendorCommand::Unknown(_) ==> r is None,
        command is InvalidArgs ==> (r matches Some(DirectRead::Text(t)) && t@ == "invalid args"@),
        command matches VendorCommand::ReadConfig(name, args) ==> {
            &&& settings.spec_get(name@) is None ==> (r matches Some(d) && d@
                == DirectReadView::Text(Seq::empty()))
            &&& settings.spec_get(name@) is Some && settings.spec_get(name@)->0.readable() ==> (r matches Some(d)
                && d@ == settings.spec_get(name@)->0.spec_direct_read(args@.map_values(|a: String| a@)))
            &&& settings.spec_get(name@) is Some && !settings.spec_get(name@)->0.readable() ==> r is None
        },
{
    match command {
        VendorCommand::ReadConfig(name, args) => {
            if settings.can_read(name.as_str()) {
                Some(settings.direct_read(name.as_str(), args))
            } else {
                None
            }
        },
        VendorCommand::InvalidArgs => Some(DirectRead::Text(String::from_str("invalid args"))),
        VendorCommand::Unknown(_) => None,
    }
}

/// Text received but not yet split into lines.
pub struct LineBuffer {
    pub pending: Vec<char>,
}

/// The index of the first line end in `s`, if any.
pub open spec fn first_newline(s: Seq<char>) -> Option<int> {
    if exists|k: int| 0 <= k < s.len() && s[k] == '\n' {
        Some(choose|k: int| 0 <= k < s.len() && s[k] == '\n' && forall|j: int| 0 <= j < k ==> s[j] != '\n')
    } else {
        None
    }
}

impl LineBuffer {
    pub fn new() -> (r: Self)
        ensures
            r.pending@.len() == 0,
    {
        LineBuffer { pending: Vec::new() }
    }

    /// Appends received text.
    pub fn push_chunk(&mut self, chunk: &str)
        ensures
            final(self).pending@ == old(self).pending@ + chunk@,
    {
        let n = chunk.unicode_len();
        for i in 0..n
            invariant
                n == chunk@.len(),
                self.pending@ == old(self).pending@ + chunk@.take(i as int),
        {
            let c = chunk.get_char(i);
            self.pending.push(c);
            assert(chunk@.take(i + 1) =~= chunk@.take(i as int).push(c));
        }
        assert(chunk@.take(n as int) =~= chunk@);
    }

    /// Takes the first complete line, its line end included, off the
    /// pending text.
    pub fn next_line(&mut self) -> (r: Option<String>)
        ensures
            first_newline(old(self).pending@) is None ==> r is None && final(self).pending@ == old(
                self,
            ).pending@,
            first_newline(old(self).pending@) matches Some(k) ==> (r matches Some(line) && line@
                == old(self).pending@.take(k + 1) && final(self).pending@ == old(self).pending@.skip(
                k + 1,
            )),
    {
        let n = self.pending.len();
        let mut i: usize = 0;
        while i < n
            invariant
                n == self.pending@.len(),
                i <= n,
                self.pending@ == old(self).pending@,
                forall|j: int| 0 <= j < i ==> self.pending@[j] != '\n',
            decreases n - i,
        {
            if self.pending[i] == '\n' {
                proof {
                    let s = old(self).pending@;
                    let k = choose|k: int| 0 <= k < s.len() && s[k] == '\n' && forall|j: int| 0 <= j < k ==> s[j] != '\n';
                    assert(k == i as int) by {
                        if k < i {
                            assert(s[k] != '\n');
                        } else if k > i {
                            assert(s[i as int] == '\n');
                        }
                    }
                }
                let mut line = String::new();
                let mut j: usize = 0;
                while j <= i
                    invariant
                        i < n,
                        n == self.pending@.len(),
                        j <= i + 1,
                        self.pending@ == old(self).pending@,
                        line@ == self.pending@.take(j as int),
                    decreases i + 1 - j,
                {
                    push_char(&mut line, self.pending[j]);
                    assert(self.pending@.take(j + 1) =~= self.pending@.take(j as int).push(self.pending@[j as int]));
                    j = j + 1;
                }
                let mut rest: Vec<char> = Vec::new();
                let mut m: usize = i + 1;
                while m < n
                    invariant
                        i < n,
                        i + 1 <= m <= n,
                        n == self.pending@.len(),
                        self.pending@ == old(self).pending@,
                        rest@ == self.pending@.subrange(i + 1, m as int),
                    decreases n - m,
                {
                    rest.push(self.pending[m]);
                    assert(self.pending@.subrange(i + 1, m + 1) =~= self.pending@.subrange(i + 1, m as int).push(self.pending@[m as int]));
                    m = m + 1;
                }
                assert(rest@ =~= old(self).pending@.skip(i + 1));
                self.pending = rest;
                return Some(line);
            }
            i = i + 1;
        }
        None
    }
}

impl Vendor {
    /// The text sent for an answer: the answer and a line end.
    pub fn frame_response(message: &str) -> (r: String)
        ensures
            r@ == message@.push('\n'),
    {
        let mut s = String::from_str(message);
        push_char(&mut s, '\n');
        s
    }

    /// How many bytes of the rest of an answer go out now: as many as the
    /// USB buffer takes, at most the rest; none means waiting.
    pub fn chunk_size(remaining: usize, available: u32) -> (r: usize)
        ensures
            r as int == if remaining < available {
                remaining as int
            } else {
                available as int
            },
    {
        if (remaining as u64) < (available as u64) {
            remaining
        } else {
            available as usize
        }
    }
}

} // verus!
