//! What holds of key pairs across operations: the listing after a key was
//! generated, deleted or renamed.

use crate::error::ErrorView;
use crate::keystore::{
    clearing_steps, delete_steps, effect, effects, generate_plan, listed_keys,
    listed_keys_are_single, listed_membership, public_name, rename_steps, with_file,
    with_file_membership, with_file_no_duplicates, GeneratePlanView, KeyStepView,
};
use crate::listing::{without, without_membership};
use crate::names::is_plain_name;
use crate::text::ends_with;
use vstd::prelude::*;

verus! {

/// A public-key name ends in `.pub` and differs from its stem.
pub proof fn public_name_facts(stem: Seq<char>)
    ensures
        ends_with(public_name(stem), ".pub"@),
        public_name(stem) != stem,
{
    reveal_strlit(".pub");
    let full = public_name(stem);
    assert(full.len() == stem.len() + 4);
    assert(full.subrange(full.len() - 4, full.len() as int) == ".pub"@);
}

/// After a rename there is every other file that was there, and the new name.
pub proof fn rename_membership(
    files: Seq<Seq<char>>,
    from: Seq<char>,
    to: Seq<char>,
    x: Seq<char>,
)
    requires
        files.contains(from),
    ensures
        effect(files, KeyStepView::Rename { from, to }).contains(x) <==> (files.contains(x) && x
            != from) || x == to,
{
    let rest = without(without(files, from), to);
    let out = rest.push(to);
    without_membership(files, from, x);
    without_membership(without(files, from), to, x);
    assert(out[rest.len() as int] == to);
    if out.contains(x) {
        let i = choose|i: int| 0 <= i < out.len() && out[i] == x;
        if i < rest.len() {
            assert(rest[i] == x);
        }
    }
    if rest.contains(x) {
        let i = choose|i: int| 0 <= i < rest.len() && rest[i] == x;
        assert(out[i] == x);
    }
}

/// One step alone has its own effect.
pub proof fn effects_of_one(files: Seq<Seq<char>>, a: KeyStepView)
    ensures
        effects(files, seq![a]) == effect(files, a),
{
    let steps = seq![a];
    assert(steps.drop_last() == Seq::<KeyStepView>::empty());
    assert(steps.last() == a);
    reveal_with_fuel(effects, 2);
}

/// A step behind others acts on what they left.
pub proof fn effects_of_push(files: Seq<Seq<char>>, steps: Seq<KeyStepView>, a: KeyStepView)
    ensures
        effects(files, steps.push(a)) == effect(effects(files, steps), a),
{
    assert(steps.push(a).drop_last() == steps);
    assert(steps.push(a).last() == a);
}

/// Two steps act one after the other.
pub proof fn effects_of_two(files: Seq<Seq<char>>, a: KeyStepView, b: KeyStepView)
    ensures
        effects(files, seq![a, b]) == effect(effect(files, a), b),
{
    assert(seq![a, b] == seq![a].push(b));
    effects_of_push(files, seq![a], b);
    effects_of_one(files, a);
}

/// A key generated under a new name is listed, and listed once.
///
/// `stem` is a plain name that no file has yet and that does not itself end
/// in `.pub`: a stem that does is taken for a public key and never listed.
pub proof fn generated_key_is_listed_once(
    files: Seq<Seq<char>>,
    algorithm: Seq<char>,
    passphrase: Seq<char>,
    stem: Seq<char>,
)
    requires
        files.no_duplicates(),
        is_plain_name(stem),
        !ends_with(stem, ".pub"@),
        !files.contains(stem),
    ensures
        generate_plan(files, algorithm, passphrase, stem, false) matches Ok(
            GeneratePlanView::Run { steps },
        ) && ({
            let after = effects(files, steps);
            &&& listed_keys(after).contains(stem)
            &&& listed_keys(after).no_duplicates()
            &&& after.no_duplicates()
        }),
{
    let made = KeyStepView::Generate { algorithm, name: stem, passphrase };
    let steps = clearing_steps(files, stem).push(made);
    assert(steps == seq![made]);
    effects_of_one(files, made);
    let after = effects(files, steps);
    let first = with_file(files, stem);
    with_file_no_duplicates(files, stem);
    with_file_no_duplicates(first, public_name(stem));
    with_file_membership(files, stem, stem);
    with_file_membership(first, public_name(stem), stem);
    with_file_membership(first, public_name(stem), public_name(stem));
    listed_membership(after, stem);
    listed_keys_are_single(after);
}

/// Once a key has been generated, generating it again without leave to
/// overwrite finds it in place: the answer is "already exists" and holds no
/// step, so the key that is there stays as it is.
pub proof fn second_generation_finds_the_key(
    files: Seq<Seq<char>>,
    algorithm: Seq<char>,
    passphrase: Seq<char>,
    stem: Seq<char>,
    overwrite: bool,
    next_algorithm: Seq<char>,
    next_passphrase: Seq<char>,
)
    ensures
        generate_plan(files, algorithm, passphrase, stem, overwrite) matches Ok(
            GeneratePlanView::Run { steps },
        ) ==> generate_plan(
            effects(files, steps),
            next_algorithm,
            next_passphrase,
            stem,
            false,
        ) == Ok::<GeneratePlanView, ErrorView>(GeneratePlanView::AlreadyExists),
{
    if let Ok(GeneratePlanView::Run { steps }) = generate_plan(
        files,
        algorithm,
        passphrase,
        stem,
        overwrite,
    ) {
        let made = KeyStepView::Generate { algorithm, name: stem, passphrase };
        let cleared = effects(files, clearing_steps(files, stem));
        effects_of_push(files, clearing_steps(files, stem), made);
        with_file_membership(cleared, stem, stem);
        with_file_membership(with_file(cleared, stem), public_name(stem), stem);
    }
}

/// A key that was deleted is not listed, and deleting a key whose private
/// file is absent is refused as not found and changes nothing.
pub proof fn deleted_key_is_not_listed(files: Seq<Seq<char>>, stem: Seq<char>)
    ensures
        match delete_steps(files, stem) {
            Ok(steps) => files.contains(stem) && !effects(files, steps).contains(stem)
                && !listed_keys(effects(files, steps)).contains(stem),
            Err(e) => !files.contains(stem) && e is NotFound && !listed_keys(files).contains(stem),
        },
{
    match delete_steps(files, stem) {
        Ok(steps) => {
            let first = KeyStepView::Remove { name: stem };
            let second = KeyStepView::Remove { name: public_name(stem) };
            without_membership(files, stem, stem);
            if files.contains(public_name(stem)) {
                effects_of_two(files, first, second);
                without_membership(without(files, stem), public_name(stem), stem);
            } else {
                effects_of_one(files, first);
            }
            listed_membership(effects(files, steps), stem);
        },
        Err(e) => {
            listed_membership(files, stem);
        },
    }
}

/// After the key `old` was renamed to a plain name `new` that no file had,
/// `old` is not listed and the private key is under `new`. If `old` had its
/// public sibling, `new` has it too, and is then listed unless `new` itself
/// ends in `.pub`.
pub proof fn renamed_key_is_listed(files: Seq<Seq<char>>, old: Seq<char>, new: Seq<char>)
    requires
        files.contains(old),
        !files.contains(new),
        is_plain_name(new),
    ensures
        rename_steps(files, old, new) matches Ok(steps) && ({
            let after = effects(files, steps);
            &&& !listed_keys(after).contains(old)
            &&& after.contains(new)
            &&& files.contains(public_name(old)) ==> after.contains(public_name(new))
            &&& files.contains(public_name(old)) && !ends_with(new, ".pub"@) ==> listed_keys(
                after,
            ).contains(new)
        }),
{
    let first = KeyStepView::Rename { from: old, to: new };
    let second = KeyStepView::Rename { from: public_name(old), to: public_name(new) };
    let middle = effect(files, first);
    public_name_facts(old);
    public_name_facts(new);
    rename_membership(files, old, new, old);
    rename_membership(files, old, new, new);
    rename_membership(files, old, new, public_name(old));
    if files.contains(public_name(old)) {
        effects_of_two(files, first, second);
        let after = effect(middle, second);
        assert(middle.contains(public_name(old)));
        rename_membership(middle, public_name(old), public_name(new), old);
        rename_membership(middle, public_name(old), public_name(new), new);
        rename_membership(middle, public_name(old), public_name(new), public_name(new));
        listed_membership(after, old);
        listed_membership(after, new);
        if old == public_name(new) {
            assert(ends_with(old, ".pub"@));
        } else {
            assert(!after.contains(old));
        }
    } else {
        effects_of_one(files, first);
        listed_membership(middle, old);
    }
}

} // verus!
