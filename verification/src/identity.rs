//! Identities tell watchables apart: what a watchable is registered under
//! says what it builds, how, and whether it runs what it has built.
use vstd::prelude::*;
use crate::types::{BuildConfigurationView, BuildMethodView, BuildSettingsView};
use crate::watch::{build_identity, run_identity};

verus! {

/// Whether a text holds no colon.
pub open spec fn no_colon(s: Seq<char>) -> bool {
    forall|i: int| 0 <= i < s.len() ==> s[i] != ':'
}

/// Whether the name of a configuration, where it has one, holds no colon.
pub open spec fn plain(configuration: BuildConfigurationView) -> bool {
    match configuration {
        BuildConfigurationView::Custom(name) => no_colon(name),
        _ => true,
    }
}

/// Two texts that are cut at their first colon are the same only where
/// both parts are.
proof fn lemma_cut_at_colon(a: Seq<char>, b: Seq<char>, c: Seq<char>, d: Seq<char>)
    requires
        no_colon(a),
        no_colon(c),
        a + ":"@ + b == c + ":"@ + d,
    ensures
        a == c,
        b == d,
{
    reveal_strlit(":");
    let x = a + ":"@ + b;
    let y = c + ":"@ + d;
    assert(x[a.len() as int] == ':');
    assert(y[c.len() as int] == ':');
    if a.len() < c.len() {
        assert(y[a.len() as int] == c[a.len() as int]);
    }
    if c.len() < a.len() {
        assert(x[c.len() as int] == a[c.len() as int]);
    }
    assert(a =~= x.subrange(0, a.len() as int));
    assert(c =~= y.subrange(0, c.len() as int));
    assert(b =~= x.subrange(a.len() as int + 1, x.len() as int));
    assert(d =~= y.subrange(c.len() as int + 1, y.len() as int));
}

/// A text between the same two texts is found again.
proof fn lemma_between(head: Seq<char>, a: Seq<char>, b: Seq<char>, tail: Seq<char>)
    requires
        head + a + tail == head + b + tail,
    ensures
        a == b,
{
    let x = head + a + tail;
    let y = head + b + tail;
    assert(x.len() == y.len());
    assert(a =~= x.subrange(head.len() as int, head.len() as int + a.len() as int));
    assert(b =~= y.subrange(head.len() as int, head.len() as int + b.len() as int));
}

/// The identity of a configuration without a colon in its name holds none.
proof fn lemma_configuration_plain(configuration: BuildConfigurationView)
    requires
        plain(configuration),
    ensures
        no_colon(configuration.identity()),
{
    reveal_strlit("Debug");
    reveal_strlit("Release");
    reveal_strlit("Custom(");
    reveal_strlit(")");
    match configuration {
        BuildConfigurationView::Custom(name) => {
            let text = "Custom("@ + name + ")"@;
            assert forall|i: int| 0 <= i < text.len() implies text[i] != ':' by {
                if i < 7 {
                    assert(text[i] == "Custom("@[i]);
                } else if i < 7 + name.len() {
                    assert(text[i] == name[i - 7]);
                } else {
                    assert(text[i] == ")"@[i - 7 - name.len()]);
                }
            }
        },
        _ => {},
    }
}

/// Configurations with the same identity are the same.
proof fn lemma_configuration_identity(a: BuildConfigurationView, b: BuildConfigurationView)
    requires
        a.identity() == b.identity(),
    ensures
        a == b,
{
    reveal_strlit("Debug");
    reveal_strlit("Release");
    reveal_strlit("Custom(");
    reveal_strlit(")");
    assert("Debug"@.len() == 5 && "Release"@.len() == 7 && "Custom("@.len() == 7 && ")"@.len()
        == 1);
    match (a, b) {
        (BuildConfigurationView::Custom(m), BuildConfigurationView::Custom(n)) => {
            lemma_between("Custom("@, m, n, ")"@);
        },
        (BuildConfigurationView::Custom(m), _) => {
            assert(("Custom("@ + m + ")"@).len() >= 8);
        },
        (_, BuildConfigurationView::Custom(n)) => {
            assert(("Custom("@ + n + ")"@).len() >= 8);
        },
        _ => {},
    }
}

/// Methods with the same identity are the same.
proof fn lemma_method_identity(a: BuildMethodView, b: BuildMethodView)
    requires
        a.identity() == b.identity(),
    ensures
        a == b,
{
    reveal_strlit("WithScheme(");
    reveal_strlit("WithTarget(");
    reveal_strlit(")");
    match (a, b) {
        (BuildMethodView::WithScheme(m), BuildMethodView::WithScheme(n)) => {
            lemma_between("WithScheme("@, m, n, ")"@);
        },
        (BuildMethodView::WithTarget(m), BuildMethodView::WithTarget(n)) => {
            lemma_between("WithTarget("@, m, n, ")"@);
        },
        (BuildMethodView::WithScheme(m), BuildMethodView::WithTarget(n)) => {
            assert(("WithScheme("@ + m + ")"@)[4] == 'S');
            assert(("WithTarget("@ + n + ")"@)[4] == 'T');
        },
        (BuildMethodView::WithTarget(m), BuildMethodView::WithScheme(n)) => {
            assert(("WithTarget("@ + m + ")"@)[4] == 'T');
            assert(("WithScheme("@ + n + ")"@)[4] == 'S');
        },
    }
}

/// Settings with the same identity are the same settings, as long as the
/// name of a custom configuration holds no colon.
pub proof fn law_settings_identity(a: BuildSettingsView, b: BuildSettingsView)
    requires
        plain(a.configuration),
        plain(b.configuration),
        a.identity() == b.identity(),
    ensures
        a == b,
{
    lemma_configuration_plain(a.configuration);
    lemma_configuration_plain(b.configuration);
    lemma_cut_at_colon(
        a.configuration.identity(),
        a.method.identity(),
        b.configuration.identity(),
        b.method.identity(),
    );
    lemma_configuration_identity(a.configuration, b.configuration);
    lemma_method_identity(a.method, b.method);
}

/// Two builds are registered under the same identity exactly when they
/// have the same settings, and so are two runs; a build and a run never
/// share an identity. The name of a custom configuration must hold no
/// colon for this.
pub proof fn law_identity_is_canonical(a: BuildSettingsView, b: BuildSettingsView)
    requires
        plain(a.configuration),
        plain(b.configuration),
    ensures
        build_identity(a) == build_identity(b) <==> a == b,
        run_identity(a) == run_identity(b) <==> a == b,
        build_identity(a) != run_identity(b),
{
    reveal_strlit("Build:");
    reveal_strlit("Run:");
    if build_identity(a) == build_identity(b) {
        lemma_between("Build:"@, a.identity(), b.identity(), Seq::empty());
        assert("Build:"@ + a.identity() + Seq::<char>::empty() =~= build_identity(a));
        assert("Build:"@ + b.identity() + Seq::<char>::empty() =~= build_identity(b));
        law_settings_identity(a, b);
    }
    if run_identity(a) == run_identity(b) {
        assert("Run:"@ + a.identity() + Seq::<char>::empty() =~= run_identity(a));
        assert("Run:"@ + b.identity() + Seq::<char>::empty() =~= run_identity(b));
        lemma_between("Run:"@, a.identity(), b.identity(), Seq::empty());
        law_settings_identity(a, b);
    }
    assert(build_identity(a)[0] == 'B');
    assert(run_identity(b)[0] == 'R');
}

} // verus!
