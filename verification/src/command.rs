//! Command lines handed to the programs the shell starts.

use vstd::prelude::*;

verus! {

/// The words of a command line as text.
pub open spec fn words_view(words: Seq<String>) -> Seq<Seq<char>> {
    words.map_values(|w: String| w@)
}

/// A command line made of the given words, in order.
pub fn command_line(words: &[&str]) -> (line: Vec<String>)
    ensures
        words_view(line@) == words@.map_values(|w: &str| w@),
{
    let mut line: Vec<String> = Vec::new();
    let mut i: usize = 0;
    while i < words.len()
        invariant
            i <= words.len(),
            words_view(line@) == words@.take(i as int).map_values(|w: &str| w@),
        decreases words.len() - i,
    {
        let ghost before = line@;
        let w: &str = words[i];
        line.push(String::from_str(w));
        assert(words@.take(i + 1) =~= words@.take(i as int).push(w));
        assert(words_view(line@) =~= words_view(before).push(w@));
        assert(words_view(line@) =~= words@.take(i + 1).map_values(|w: &str| w@));
        i = i + 1;
    }
    assert(words@.take(words.len() as int) =~= words@);
    line
}

} // verus!
