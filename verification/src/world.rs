use vstd::prelude::*;

use crate::text::is_text;
use crate::unsanitize::{unsanitized, Unsanitizer};

verus! {

/// The tag was set by the world's author: it starts with `author_tag`.
pub open spec fn is_author_tag(tag: Seq<char>) -> bool {
    tag.len() >= 10 && tag.take(10) == "author_tag"@
}

/// The first eleven bytes of the tag, `author_tag` and the character after
/// it, can be cut off: the tag goes on past `author_tag` with a one-byte
/// character.
pub open spec fn can_cut_prefix(tag: Seq<char>) -> bool {
    tag.len() >= 11 && (tag[10] as u32) < 0x80
}

/// The names of the author's tags: each tag that starts with `author_tag`,
/// without its first eleven characters, in their order; the other tags are
/// dropped.
pub open spec fn author_tag_names(tags: Seq<String>) -> Seq<Seq<char>>
    decreases tags.len(),
{
    if tags.len() == 0 {
        Seq::empty()
    } else {
        author_tag_names(tags.drop_last()) + if is_author_tag(tags.last()@) {
            seq![tags.last()@.skip(11)]
        } else {
            Seq::empty()
        }
    }
}

/// The views of a list of texts.
pub open spec fn views(s: Seq<String>) -> Seq<Seq<char>> {
    s.map_values(|t: String| t@)
}

/// Keeps the tags set by the world's author and cuts `author_tag` and the
/// separator after it off each. A tag that starts with `author_tag` has to go
/// on with a one-byte character, as cutting eleven bytes off it needs.
pub fn author_tags(tags: &Vec<String>) -> (r: Vec<String>)
    requires
        forall|i: int|
            0 <= i < tags@.len() && is_author_tag(#[trigger] tags@[i]@) ==> can_cut_prefix(
                tags@[i]@,
            ),
    ensures
        views(r@) == author_tag_names(tags@),
{
    let mut r: Vec<String> = Vec::new();
    let mut i: usize = 0;
    while i < tags.len()
        invariant
            0 <= i <= tags.len(),
            views(r@) == author_tag_names(tags@.take(i as int)),
            forall|j: int|
                0 <= j < tags@.len() && is_author_tag(#[trigger] tags@[j]@) ==> can_cut_prefix(
                    tags@[j]@,
                ),
        decreases tags.len() - i,
    {
        let tag = tags[i].as_str();
        let ghost t = tags@.take(i + 1);
        proof {
            assert(t.drop_last() == tags@.take(i as int));
            assert(t.last() == tags@[i as int]);
        }
        let n = tag.unicode_len();
        if n >= 10 && is_text(tag.substring_char(0, 10), "author_tag") {
            proof {
                assert(tag@.subrange(0, 10) == tag@.take(10));
            }
            let name = String::from_str(tag.substring_char(11, n));
            r.push(name);
            proof {
                assert(tag@.subrange(11, n as int) == tag@.skip(11));
                assert(views(r@) =~= views(r@.drop_last()).push(name@));
            }
        } else {
            proof {
                assert(n >= 10 ==> tag@.subrange(0, 10) == tag@.take(10));
            }
        }
        i = i + 1;
    }
    proof {
        assert(tags@.take(i as int) =~= tags@);
    }
    r
}

/// What `/world` changes in a world before it answers: the tags become the
/// names of the author's tags, and the description loses its look-alike
/// characters.
pub fn modify_world(tags: &mut Vec<String>, description: &mut String, un: &Unsanitizer)
    requires
        forall|i: int|
            0 <= i < old(tags)@.len() && is_author_tag(#[trigger] old(tags)@[i]@) ==> can_cut_prefix(
                old(tags)@[i]@,
            ),
    ensures
        views(final(tags)@) == author_tag_names(old(tags)@),
        final(description)@ == unsanitized(old(description)@),
{
    *tags = author_tags(tags);
    *description = un.unsanitize(description.as_str());
}

} // verus!
