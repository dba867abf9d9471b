//! The instruction handed to the worker process.

use vstd::prelude::*;

verus! {

/// The instruction lines that precede the source text, for a target
/// language.
pub open spec fn prompt_header(target_language: Seq<char>) -> Seq<char> {
    "You are a professional translator.\n- Translate the following text into "@ + target_language
        + ".\n- Output must be "@ + target_language
        + " only.\n- Keep tone and nuance.\n- Do not add explanations.\n---\n"@
}

/// The whole prompt: the instruction lines, the source text as it is, and
/// one line feed.
pub open spec fn prompt_text(text: Seq<char>, target_language: Seq<char>) -> Seq<char> {
    prompt_header(target_language) + text + seq!['\n']
}

/// Whether `needle` stands in `hay` at offset `at`.
pub open spec fn occurs_at(hay: Seq<char>, needle: Seq<char>, at: int) -> bool {
    &&& 0 <= at
    &&& at + needle.len() <= hay.len()
    &&& hay.subrange(at, at + needle.len()) == needle
}

/// Whether `needle` stands in `hay` at some offset below `limit`.
pub open spec fn occurs_before(hay: Seq<char>, needle: Seq<char>, limit: int) -> bool {
    exists|at: int| 0 <= at < limit && occurs_at(hay, needle, at)
}

/// Renders the translation instruction for `text` and `target_language`.
pub fn build_prompt(text: &str, target_language: &str) -> (prompt: String)
    ensures
        prompt@ == prompt_text(text@, target_language@),
{
    let mut prompt = String::new();
    prompt.append("You are a professional translator.\n- Translate the following text into ");
    prompt.append(target_language);
    prompt.append(".\n- Output must be ");
    prompt.append(target_language);
    prompt.append(" only.\n- Keep tone and nuance.\n- Do not add explanations.\n---\n");
    prompt.append(text);
    prompt.push('\n');
    assert(prompt@ =~= prompt_text(text@, target_language@));
    prompt
}

/// The prompt names the target language at two places that do not overlap.
pub proof fn lemma_prompt_names_language_twice(text: Seq<char>, target_language: Seq<char>)
    ensures
        exists|first: int, second: int|
            {
                &&& occurs_at(prompt_text(text, target_language), target_language, first)
                &&& occurs_at(prompt_text(text, target_language), target_language, second)
                &&& first + target_language.len() <= second
            },
{
    let intro = "You are a professional translator.\n- Translate the following text into "@;
    let middle = ".\n- Output must be "@;
    let prompt = prompt_text(text, target_language);
    let first = intro.len() as int;
    let second = first + target_language.len() + middle.len();
    assert(prompt.subrange(first, first + target_language.len()) =~= target_language);
    assert(prompt.subrange(second, second + target_language.len()) =~= target_language);
    assert(occurs_at(prompt, target_language, first));
    assert(occurs_at(prompt, target_language, second));
}

/// The source text stands in the prompt as it is, right after the
/// instruction lines, and only the line feed follows it.
pub proof fn lemma_prompt_embeds_text(text: Seq<char>, target_language: Seq<char>)
    ensures
        occurs_at(
            prompt_text(text, target_language),
            text,
            prompt_header(target_language).len() as int,
        ),
        prompt_text(text, target_language).len() == prompt_header(target_language).len()
            + text.len() + 1,
{
    let header = prompt_header(target_language);
    let prompt = prompt_text(text, target_language);
    let h = header.len() as int;
    assert(prompt.subrange(h, h + text.len()) =~= text);
}

/// The instruction lines end with a line feed.
pub proof fn lemma_header_ends_with_line_feed(target_language: Seq<char>)
    ensures
        prompt_header(target_language).len() > 0,
        prompt_header(target_language).last() == '\n',
{
    reveal_strlit(" only.\n- Keep tone and nuance.\n- Do not add explanations.\n---\n");
}

/// Where the source text does not already begin inside the instruction
/// lines, it stands in the prompt exactly once.
pub proof fn lemma_prompt_holds_text_once(text: Seq<char>, target_language: Seq<char>)
    requires
        text.len() > 0,
        !occurs_before(
            prompt_text(text, target_language),
            text,
            prompt_header(target_language).len() as int,
        ),
    ensures
        forall|at: int|
            occurs_at(prompt_text(text, target_language), text, at) <==> at == prompt_header(
                target_language,
            ).len(),
{
    let header = prompt_header(target_language);
    let prompt = prompt_text(text, target_language);
    let h = header.len() as int;
    lemma_prompt_embeds_text(text, target_language);
    lemma_header_ends_with_line_feed(target_language);
    assert forall|at: int| occurs_at(prompt, text, at) implies at == h by {
        if at < h {
            assert(occurs_before(prompt, text, h));
        } else if at > h {
            // The text would have to equal itself moved on by one place, up
            // to the closing line feed: it is made of line feeds only, and
            // then it also begins at the last place of the instruction lines.
            assert(at == h + 1);
            let shifted = prompt.subrange(h + 1, h + 1 + text.len());
            assert(shifted == text);
            assert forall|k: int| 0 <= k < text.len() implies text[k] == '\n' by {
                lemma_all_line_feeds(text, prompt, h, k);
            }
            assert(prompt.subrange(h - 1, h - 1 + text.len()) =~= text) by {
                assert forall|k: int| 0 <= k < text.len() implies prompt[h - 1 + k]
                    == text[k] by {
                    if k > 0 {
                        assert(prompt[h - 1 + k] == text[k - 1]);
                    }
                }
            }
            assert(occurs_at(prompt, text, h - 1));
            assert(occurs_before(prompt, text, h));
        }
    }
}

/// Text that equals itself moved on by one place inside `hay`, with a line
/// feed behind it, holds line feeds only.
proof fn lemma_all_line_feeds(text: Seq<char>, hay: Seq<char>, h: int, k: int)
    requires
        0 <= h,
        hay.len() == h + text.len() + 1,
        hay.subrange(h, h + text.len()) == text,
        hay.subrange(h + 1, h + 1 + text.len()) == text,
        hay.last() == '\n',
        0 <= k < text.len(),
    ensures
        text[k] == '\n',
    decreases text.len() - k,
{
    assert(hay.subrange(h + 1, h + 1 + text.len())[k] == hay[h + 1 + k]);
    if k + 1 < text.len() {
        lemma_all_line_feeds(text, hay, h, k + 1);
        assert(hay.subrange(h, h + text.len())[k + 1] == hay[h + k + 1]);
    }
}

/// The prompt ends with a line feed; where the source text does not itself
/// end with one, that line feed is the only one at the end.
pub proof fn lemma_prompt_ends_with_one_line_feed(text: Seq<char>, target_language: Seq<char>)
    requires
        text.len() > 0,
        text.last() != '\n',
    ensures
        prompt_text(text, target_language).last() == '\n',
        prompt_text(text, target_language)[prompt_text(text, target_language).len() - 2] != '\n',
{
}

} // verus!
