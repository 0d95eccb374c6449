//! What holds of paths and of their URLs.

use crate::encoding;
use crate::encoding_laws;
use crate::paths;
use vstd::prelude::*;

verus! {

/// The first part of a text ends where the first slash stands, or with the
/// text.
proof fn lemma_first_part(text: Seq<char>)
    ensures
        ({
            let first = encoding::parts(text)[0];
            &&& encoding::parts(text).len() > 0
            &&& first.is_prefix_of(text)
            &&& encoding::parts(text).len() == 1 ==> first == text
            &&& encoding::parts(text).len() > 1 ==> first.len() < text.len()
                && text[first.len() as int] == '/'
            &&& !first.contains('/')
        }),
    decreases text.len(),
{
    if text.len() > 0 {
        let front = text.drop_last();
        let before = encoding::parts(front);
        lemma_first_part(front);
        let first = encoding::parts(text)[0];
        if text.last() == '/' {
            assert(first == before[0]);
            assert(first =~= text.take(first.len() as int));
        } else if before.len() > 1 {
            assert(first == before[0]);
            assert(first =~= text.take(first.len() as int));
        } else {
            assert(first == before[0].push(text.last()));
            assert(first =~= text);
            assert forall|i: int| 0 <= i < first.len() implies first[i] != '/' by {
                if i < front.len() {
                    assert(before[0].contains(front[i]));
                }
            }
        }
    }
}

/// The names of two texts with a slash between them are those of the first and
/// then those of the second.
proof fn lemma_names_on_both_sides(a: Seq<char>, b: Seq<char>)
    ensures
        paths::names_in(a + seq!['/'] + b) == paths::names_in(a) + paths::names_in(b),
{
    let text = a + seq!['/'] + b;
    assert(paths::with_slashes(text) =~= paths::with_slashes(a) + seq!['/'] + paths::with_slashes(
        b,
    ));
    encoding_laws::lemma_parts_on_both_sides(paths::with_slashes(a), paths::with_slashes(b));
    Seq::filter_distributes_over_add(
        encoding::parts(paths::with_slashes(a)),
        encoding::parts(paths::with_slashes(b)),
        |part: Seq<char>| paths::is_name(part),
    );
}

/// A slash at the end of a text adds no name.
proof fn lemma_slash_names_nothing(text: Seq<char>)
    ensures
        paths::names_in(text + seq!['/']) == paths::names_in(text),
{
    lemma_names_on_both_sides(text, Seq::empty());
    reveal(Seq::filter);
    assert(paths::with_slashes(Seq::empty()) =~= Seq::empty());
    assert(encoding::parts(Seq::empty()).drop_last() =~= Seq::empty());
    assert(Seq::<Seq<char>>::empty().filter(|part: Seq<char>| paths::is_name(part))
        =~= Seq::empty());
    assert(paths::names_in(Seq::empty()) =~= Seq::empty());
    assert(text + seq!['/'] + Seq::empty() =~= text + seq!['/']);
    assert(paths::names_in(text) + Seq::empty() =~= paths::names_in(text));
}

/// A path right below another has the names of the other, and then its own. A
/// slash at the end of the other can be the one between them.
pub proof fn law_names_below(parent: Seq<char>, name: Seq<char>)
    requires
        parent.len() > 0,
    ensures
        paths::named_parts(parent + seq!['/'] + name) == paths::named_parts(parent)
            + paths::names_in(name),
        parent.last() == '/' ==> paths::named_parts(parent + name) == paths::named_parts(parent)
            + paths::names_in(name),
{
    let child = parent + seq!['/'] + name;
    let whole = paths::detached(parent);
    if parent.len() >= 2 {
        assert(child.take(2) =~= parent.take(2));
        assert(child.skip(2) =~= parent.skip(2) + seq!['/'] + name);
    } else {
        assert(child.take(2)[1] == '/');
    }
    assert(paths::detached(child) =~= whole + seq!['/'] + name);
    lemma_names_on_both_sides(whole, name);
    if parent.last() == '/' {
        let close = parent + name;
        if parent.len() >= 2 {
            assert(close.take(2) =~= parent.take(2));
            assert(close.skip(2) =~= parent.skip(2) + name);
        } else if close.len() >= 2 {
            assert(close.take(2)[0] == '/');
        }
        let front = whole.drop_last();
        assert(whole =~= front + seq!['/']);
        assert(paths::detached(close) =~= front + seq!['/'] + name);
        lemma_names_on_both_sides(front, name);
        lemma_slash_names_nothing(front);
    }
}

/// A name without separators is the one name in itself.
pub proof fn law_name_is_one_name(name: Seq<char>)
    requires
        paths::is_name(name),
        !name.contains('/'),
        !name.contains('\\'),
    ensures
        paths::names_in(name) == seq![name],
{
    let slashed = paths::with_slashes(name);
    assert forall|i: int| 0 <= i < name.len() implies slashed[i] == name[i] by {
        assert(name.contains(name[i]));
    }
    assert(slashed =~= name);
    lemma_first_part(name);
    let parts = encoding::parts(name);
    if parts.len() > 1 {
        assert(name.contains('/'));
    }
    assert(parts =~= seq![name]);
    lemma_names_are_kept(parts);
}

/// Names are all kept.
proof fn lemma_names_are_kept(parts: Seq<Seq<char>>)
    requires
        forall|i: int| 0 <= i < parts.len() ==> paths::is_name(#[trigger] parts[i]),
    ensures
        parts.filter(|part: Seq<char>| paths::is_name(part)) == parts,
    decreases parts.len(),
{
    reveal(Seq::filter);
    if parts.len() > 0 {
        let front = parts.drop_last();
        assert forall|i: int| 0 <= i < front.len() implies paths::is_name(#[trigger] front[i]) by {
            assert(front[i] == parts[i]);
        }
        lemma_names_are_kept(front);
        assert(parts =~= front.push(parts.last()));
    }
}

/// A first part and a slash stand before the others.
proof fn lemma_joined_behind(first: Seq<char>, parts: Seq<Seq<char>>)
    requires
        parts.len() > 0,
    ensures
        encoding::joined(seq![first] + parts) == first + seq!['/'] + encoding::joined(parts),
    decreases parts.len(),
{
    let all = seq![first] + parts;
    assert(all.drop_last() =~= seq![first] + parts.drop_last());
    if parts.len() > 1 {
        lemma_joined_behind(first, parts.drop_last());
        assert(encoding::joined(all) =~= first + seq!['/'] + encoding::joined(parts));
    } else {
        assert(seq![first] + parts.drop_last() =~= seq![first]);
        assert(encoding::joined(seq![first]) == first);
        assert(encoding::joined(parts) == parts[0]);
        assert(encoding::joined(all) =~= first + seq!['/'] + encoding::joined(parts));
    }
}

/// A text whose parts are names, but for a first one that can be empty, is its
/// names behind what leads them.
proof fn lemma_text_is_its_names(text: Seq<char>)
    requires
        encoding::parts(paths::with_slashes(text))[0] != "."@,
        forall|i: int|
            0 < i < encoding::parts(paths::with_slashes(text)).len() ==> paths::is_name(
                #[trigger] encoding::parts(paths::with_slashes(text))[i],
            ),
    ensures
        paths::lead(text) + encoding::joined(paths::names_in(text)) == paths::with_slashes(text),
        !paths::starts_with_dot(text),
        text.len() > 0 ==> !paths::is_separator(text.last()),
        text.len() > 0 ==> paths::names_in(text).len() > 0,
{
    let slashed = paths::with_slashes(text);
    let parts = encoding::parts(slashed);
    let first = parts[0];
    let others = parts.skip(1);
    let named = |part: Seq<char>| paths::is_name(part);
    lemma_first_part(slashed);
    encoding_laws::law_parts_make_the_text(slashed);
    assert(parts =~= seq![first] + others);
    Seq::filter_distributes_over_add(seq![first], others, named);
    assert forall|i: int| 0 <= i < others.len() implies paths::is_name(#[trigger] others[i]) by {
        assert(others[i] == parts[i + 1]);
    }
    lemma_names_are_kept(others);
    reveal(Seq::filter);
    assert(seq![first].drop_last() =~= Seq::empty());
    assert(Seq::<Seq<char>>::empty().filter(named) =~= Seq::empty());
    reveal_strlit(".");
    if paths::starts_with_dot(text) {
        assert(slashed[0] == '.');
        if first.len() == 0 {
            assert(parts.len() > 1);
        } else if first.len() > 1 {
            assert(first == slashed.take(first.len() as int));
            assert(first[1] == slashed[1]);
            assert(first.contains('/'));
        }
        assert(first =~= "."@);
    }
    if text.len() > 0 && paths::is_separator(text.last()) {
        assert(slashed.last() == '/');
        assert(parts.last().len() == 0);
        assert(parts.len() > 1) by {
            encoding_laws::law_parts_make_the_text(slashed.drop_last());
        }
        assert(!paths::is_name(parts[parts.len() - 1]));
    }
    if first.len() > 0 {
        assert(first == slashed.take(first.len() as int));
        assert(slashed[0] == first[0]);
        assert(first.contains(first[0]));
        assert(!paths::is_separator(text[0]));
        assert(seq![first].filter(named) =~= seq![first]);
        assert(paths::names_in(text) =~= parts);
        assert(paths::lead(text) + slashed =~= slashed);
    } else {
        assert(seq![first].filter(named) =~= Seq::empty());
        assert(paths::names_in(text) =~= others);
        if parts.len() > 1 {
            assert(slashed[0] == '/');
            assert(paths::is_separator(text[0]));
            lemma_joined_behind(first, others);
            assert(paths::lead(text) + encoding::joined(others) =~= slashed);
        } else {
            assert(slashed =~= first);
            assert(text.len() == 0);
            assert(paths::lead(text) + encoding::joined(others) =~= slashed);
        }
    }
}

/// A normal path gets slashes for its backslashes, or stays as it is.
pub proof fn law_normal_path_gets_slashes(path: Seq<char>, slashed: Seq<char>)
    requires
        paths::is_normal(path),
        paths::slashes_to(path, slashed),
    ensures
        slashed == path || slashed == paths::with_slashes(path),
{
    let n: int = if paths::has_drive(path) {
        2
    } else {
        0
    };
    let rest = path.skip(n);
    assert(rest =~= paths::past_drive(path));
    lemma_text_is_its_names(rest);
    reveal_strlit(r"\\?\");
    if paths::is_verbatim(path) {
        assert(r"\\?\"@ == path.take(4));
        assert(path[0] == r"\\?\"@[0] && path[1] == r"\\?\"@[1]);
        assert(paths::starts_with_two(path));
    }
    assert(paths::is_settled(path, n));
    if slashed != path {
        assert(paths::ends_prefix(path, n));
        assert(slashed == paths::names_slashed(path, n));
        let names = paths::names_in(rest);
        let start = path.take(n);
        assert forall|i: int| 0 <= i < n implies start[i] != '\\' by {
            assert(start[i] == path[i]);
        }
        assert(paths::with_slashes(path) =~= start + paths::with_slashes(rest));
        if names.len() > 0 {
            encoding::lemma_joined_is_slashed(names);
            let whole = start + paths::lead(rest) + encoding::slashed(names);
            assert(whole =~= start + (paths::lead(rest) + encoding::joined(names)) + seq!['/']);
            assert(whole.drop_last() =~= paths::with_slashes(path));
            assert(path.last() == rest.last());
            assert(whole.len() > 1);
        } else {
            assert(rest.len() == 0);
            assert(start =~= path);
            assert(start + paths::lead(rest) + encoding::slashed(names) =~= path);
            assert(paths::with_slashes(path) =~= path);
        }
    }
}

/// Plain paths are the same just if they are written the same.
pub proof fn law_plain_paths_are_the_same_text(a: Seq<char>, b: Seq<char>)
    requires
        paths::is_plain(a),
        paths::is_plain(b),
    ensures
        paths::is_slashed(a),
        paths::is_slashed(b),
        paths::are_same(a, b) == (a == b),
{
    lemma_plain_path_is_its_names(a);
    lemma_plain_path_is_its_names(b);
}

/// A path stays the same if a slash in it is doubled, or a single dot is put
/// between two slashes.
pub proof fn law_spelling_does_not_matter(a: Seq<char>, b: Seq<char>)
    requires
        a.len() > 0,
        paths::is_slashed(a + seq!['/'] + b),
    ensures
        paths::is_slashed(a + seq!['/', '/'] + b),
        paths::is_slashed(a + seq!['/', '.', '/'] + b),
        paths::are_same(a + seq!['/'] + b, a + seq!['/', '/'] + b),
        paths::are_same(a + seq!['/'] + b, a + seq!['/', '.', '/'] + b),
{
    let path = a + seq!['/'] + b;
    let doubled = a + seq!['/', '/'] + b;
    let dotted = a + seq!['/', '.', '/'] + b;
    let dot = seq!['.'];
    assert(doubled =~= (a + seq!['/']) + seq!['/'] + b);
    assert(dotted =~= (a + seq!['/'] + dot) + seq!['/'] + b);
    lemma_names_on_both_sides(a, b);
    lemma_names_on_both_sides(a + seq!['/'], b);
    lemma_slash_names_nothing(a);
    lemma_names_on_both_sides(a + seq!['/'] + dot, b);
    lemma_names_on_both_sides(a, dot);
    lemma_dot_names_nothing();
    assert(paths::names_in(a) + Seq::empty() =~= paths::names_in(a));
    assert(path[0] == a[0] && doubled[0] == a[0] && dotted[0] == a[0]);
    assert(path[1] == doubled[1] && path[1] == dotted[1]);
    assert(path.take(2) =~= doubled.take(2));
    assert(path.take(2) =~= dotted.take(2));
    let n = a.len() as int;
    assert forall|i: int| 0 <= i < doubled.len() implies path.contains(#[trigger] doubled[i]) by {
        assert(doubled[i] == path[if i <= n { i } else { i - 1 }]);
    }
    assert forall|i: int|
        0 <= i < dotted.len() && dotted[i] != '.' implies path.contains(#[trigger] dotted[i]) by {
        assert(dotted[i] == path[if i <= n { i } else { i - 2 }]);
    }
}

/// A single dot names nothing.
proof fn lemma_dot_names_nothing()
    ensures
        paths::names_in(seq!['.']) == Seq::<Seq<char>>::empty(),
{
    let dot = seq!['.'];
    assert(paths::with_slashes(dot) =~= dot);
    lemma_first_part(dot);
    let parts = encoding::parts(dot);
    if parts.len() > 1 {
        assert(dot[parts[0].len() as int] == '/');
    }
    reveal_strlit(".");
    assert("."@ =~= dot);
    assert(parts =~= seq![dot]);
    reveal(Seq::filter);
    assert(parts.drop_last() =~= Seq::empty());
    assert(Seq::<Seq<char>>::empty().filter(|part: Seq<char>| paths::is_name(part))
        =~= Seq::empty());
}

/// A plain path is its names behind what leads them.
proof fn lemma_plain_path_is_its_names(path: Seq<char>)
    requires
        paths::is_plain(path),
    ensures
        path == paths::lead(path) + encoding::joined(paths::named_parts(path)),
        !paths::has_drive(path),
{
    if path.len() >= 2 {
        assert(path.contains(path[1]));
    }
    lemma_no_drive_without_colon(path);
    lemma_text_is_its_names(path);
    lemma_plain_path_has_slashes(path);
}

/// A path without a colon as its second character has no drive letter.
proof fn lemma_no_drive_without_colon(path: Seq<char>)
    ensures
        path.len() < 2 || path[1] != ':' ==> !paths::has_drive(path),
{
    if path.len() >= 2 {
        assert(path.take(2)[1] == path[1]);
    }
}

/// A plain path has no backslashes to put slashes for.
proof fn lemma_plain_path_has_slashes(path: Seq<char>)
    requires
        paths::is_plain(path),
    ensures
        paths::with_slashes(path) == path,
{
    assert forall|i: int| 0 <= i < path.len() implies paths::with_slashes(path)[i] == path[i] by {
        assert(path.contains(path[i]));
    }
    assert(paths::with_slashes(path) =~= path);
}

/// A plain path has one URL, on every platform.
pub proof fn law_plain_path_has_one_url(path: Seq<char>, url: Seq<char>)
    requires
        paths::is_file_url(path, url),
    ensures
        paths::is_plain(path) ==> url == paths::file_url(path),
{
    if paths::is_plain(path) {
        let (simple, slashed) = choose|simple: Seq<char>, slashed: Seq<char>|
            paths::simplifies_to(path, simple) && #[trigger] paths::slashes_to(simple, slashed)
                && url == paths::file_url(slashed);
        reveal_strlit(r"\\?\");
        if paths::is_verbatim(path) {
            assert(r"\\?\"@ == path.take(4));
            assert(path[0] == r"\\?\"@[0]);
            assert(path.contains('\\'));
        }
        law_normal_path_gets_slashes(simple, slashed);
        lemma_plain_path_has_slashes(path);
    }
}

/// Every path has a URL.
pub proof fn law_every_path_has_a_url(path: Seq<char>)
    ensures
        paths::is_file_url(path, paths::file_url(path)),
{
    assert(paths::slashes_to(path, path));
}

/// The URL of a file tells its path: behind the start that all such URLs have,
/// it is decoded to the path. So different paths have different URLs.
pub proof fn law_url_tells_the_path(slashed: Seq<char>, other: Seq<char>)
    ensures
        "/fw/fsc/"@.is_prefix_of(paths::file_url(slashed)),
        encoding_laws::percent_decoded(paths::file_url(slashed).skip("/fw/fsc/"@.len() as int))
            == vstd::utf8::encode_utf8(slashed),
        paths::file_url(slashed) == paths::file_url(other) ==> slashed == other,
{
    let start = "/fw/fsc/"@;
    let n = start.len() as int;
    assert(start =~= paths::file_url(slashed).take(n));
    assert(paths::file_url(slashed).skip(n) =~= encoding::encoded_path(slashed));
    assert(paths::file_url(other).skip(n) =~= encoding::encoded_path(other));
    encoding_laws::law_decoding_undoes_path_encoding(slashed);
    encoding_laws::law_decoding_undoes_path_encoding(other);
    vstd::utf8::encode_utf8_decode_utf8(slashed);
    vstd::utf8::encode_utf8_decode_utf8(other);
}

/// The URL of a file is `/fw/fsc/` and the file's path, each part of it encoded.
/// This is so for every path without backslashes, colons, doubled slashes and
/// single dots, however long it is.
pub proof fn law_url_holds_the_path(path: Seq<char>, url: Seq<char>, i: int)
    requires
        paths::is_file_url(path, url),
        !path.contains('\\'),
        !path.contains(':'),
        encoding::parts(path)[0] != "."@,
        forall|k: int|
            0 < k < encoding::parts(path).len() ==> (#[trigger] encoding::parts(path)[k]).len() > 0
                && encoding::parts(path)[k] != "."@,
        0 <= i < encoding::parts(path).len(),
    ensures
        ({
            let start = seq!['/', 'f', 'w', '/', 'f', 's', 'c', '/'];
            let rest = url.skip(8);
            &&& start.is_prefix_of(url)
            &&& encoding_laws::percent_decoded(rest) == vstd::utf8::encode_utf8(path)
            &&& encoding::parts(rest).len() == encoding::parts(path).len()
            &&& encoding::parts(rest)[i] == encoding::percent_encoded(encoding::parts(path)[i])
        }),
{
    assert forall|k: int| 0 <= k < path.len() implies paths::with_slashes(path)[k] == path[k] by {
        assert(path.contains(path[k]));
    }
    assert(paths::with_slashes(path) =~= path);
    if paths::has_drive(path) {
        assert(path.take(2)[1] == path[1]);
        assert(path.contains(':'));
    }
    if paths::starts_with_two(path) {
        assert(path.contains(path[0]) && path.contains(path[1]));
        lemma_first_part(path);
        let first = encoding::parts(path)[0];
        if first.len() > 0 {
            assert(first[0] == path[0]);
            assert(first.contains('/'));
        }
        let empty = Seq::<char>::empty();
        let rest = path.skip(2);
        assert(path =~= empty + seq!['/'] + (empty + seq!['/'] + rest));
        encoding_laws::lemma_parts_on_both_sides(empty, empty + seq!['/'] + rest);
        encoding_laws::lemma_parts_on_both_sides(empty, rest);
        encoding_laws::law_parts_make_the_text(rest);
        assert(encoding::parts(path)[1].len() == 0);
    }
    law_plain_path_has_one_url(path, url);
    law_url_tells_the_path(path, path);
    reveal_strlit("/fw/fsc/");
    let start = seq!['/', 'f', 'w', '/', 'f', 's', 'c', '/'];
    assert("/fw/fsc/"@ =~= start);
    assert(url.skip(8) =~= encoding::encoded_path(path));
    encoding_laws::law_each_part_is_encoded(path, i);
}

} // verus!
