//! A tuple is taken out of a registry member by member, from the first to the
//! last. Tuples of up to 15 members are provided for.
use super::FromRegistry;
use vstd::prelude::*;

verus! {

impl<
    Registry,
    A: FromRegistry<Registry>,
    B: FromRegistry<Registry>,
> FromRegistry<Registry> for (A, B) {
    open spec fn available(registry: &Registry) -> bool {
        &&& A::available(registry)
        &&& B::available(registry)
    }

    open spec fn extracted(registry: &Registry, value: (A, B)) -> bool {
        &&& A::extracted(registry, value.0)
        &&& B::extracted(registry, value.1)
    }

    fn from_registry(registry: &Registry) -> Self {
        (A::from_registry(registry), B::from_registry(registry))
    }
}

impl<
    Registry,
    A: FromRegistry<Registry>,
    B: FromRegistry<Registry>,
    C: FromRegistry<Registry>,
> FromRegistry<Registry> for (A, B, C) {
    open spec fn available(registry: &Registry) -> bool {
        &&& A::available(registry)
        &&& B::available(registry)
        &&& C::available(registry)
    }

    open spec fn extracted(registry: &Registry, value: (A, B, C)) -> bool {
        &&& A::extracted(registry, value.0)
        &&& B::extracted(registry, value.1)
        &&& C::extracted(registry, value.2)
    }

    fn from_registry(registry: &Registry) -> Self {
        (A::from_registry(registry), B::from_registry(registry), C::from_registry(registry))
    }
}

impl<
    Registry,
    A: FromRegistry<Registry>,
    B: FromRegistry<Registry>,
    C: FromRegistry<Registry>,
    D: FromRegistry<Registry>,
> FromRegistry<Registry> for (A, B, C, D) {
    open spec fn available(registry: &Registry) -> bool {
        &&& A::available(registry)
        &&& B::available(registry)
        &&& C::available(registry)
        &&& D::available(registry)
    }

    open spec fn extracted(registry: &Registry, value: (A, B, C, D)) -> bool {
        &&& A::extracted(registry, value.0)
        &&& B::extracted(registry, value.1)
        &&& C::extracted(registry, value.2)
        &&& D::extracted(registry, value.3)
    }

    fn from_registry(registry: &Registry) -> Self {
        (
            A::from_registry(registry),
            B::from_registry(registry),
            C::from_registry(registry),
            D::from_registry(registry),
        )
    }
}

impl<
    Registry,
    A: FromRegistry<Registry>,
    B: FromRegistry<Registry>,
    C: FromRegistry<Registry>,
    D: FromRegistry<Registry>,
    E: FromRegistry<Registry>,
> FromRegistry<Registry> for (A, B, C, D, E) {
    open spec fn available(registry: &Registry) -> bool {
        &&& A::available(registry)
        &&& B::available(registry)
        &&& C::available(registry)
        &&& D::available(registry)
        &&& E::available(registry)
    }

    open spec fn extracted(registry: &Registry, value: (A, B, C, D, E)) -> bool {
        &&& A::extracted(registry, value.0)
        &&& B::extracted(registry, value.1)
        &&& C::extracted(registry, value.2)
        &&& D::extracted(registry, value.3)
        &&& E::extracted(registry, value.4)
    }

    fn from_registry(registry: &Registry) -> Self {
        (
            A::from_registry(registry),
            B::from_registry(registry),
            C::from_registry(registry),
            D::from_registry(registry),
            E::from_registry(registry),
        )
    }
}

impl<
    Registry,
    A: FromRegistry<Registry>,
    B: FromRegistry<Registry>,
    C: FromRegistry<Registry>,
    D: FromRegistry<Registry>,
    E: FromRegistry<Registry>,
    F: FromRegistry<Registry>,
> FromRegistry<Registry> for (A, B, C, D, E, F) {
    open spec fn available(registry: &Registry) -> bool {
        &&& A::available(registry)
        &&& B::available(registry)
        &&& C::available(registry)
        &&& D::available(registry)
        &&& E::available(registry)
        &&& F::available(registry)
    }

    open spec fn extracted(registry: &Registry, value: (A, B, C, D, E, F)) -> bool {
        &&& A::extracted(registry, value.0)
        &&& B::extracted(registry, value.1)
        &&& C::extracted(registry, value.2)
        &&& D::extracted(registry, value.3)
        &&& E::extracted(registry, value.4)
        &&& F::extracted(registry, value.5)
    }

    fn from_registry(registry: &Registry) -> Self {
        (
            A::from_registry(registry),
            B::from_registry(registry),
            C::from_registry(registry),
            D::from_registry(registry),
            E::from_registry(registry),
            F::from_registry(registry),
        )
    }
}

impl<
    Registry,
    A: FromRegistry<Registry>,
    B: FromRegistry<Registry>,
    C: FromRegistry<Registry>,
    D: FromRegistry<Registry>,
    E: FromRegistry<Registry>,
    F: FromRegistry<Registry>,
    G: FromRegistry<Registry>,
> FromRegistry<Registry> for (A, B, C, D, E, F, G) {
    open spec fn available(registry: &Registry) -> bool {
        &&& A::available(registry)
        &&& B::available(registry)
        &&& C::available(registry)
        &&& D::available(registry)
        &&& E::available(registry)
        &&& F::available(registry)
        &&& G::available(registry)
    }

    open spec fn extracted(registry: &Registry, value: (A, B, C, D, E, F, G)) -> bool {
        &&& A::extracted(registry, value.0)
        &&& B::extracted(registry, value.1)
        &&& C::extracted(registry, value.2)
        &&& D::extracted(registry, value.3)
        &&& E::extracted(registry, value.4)
        &&& F::extracted(registry, value.5)
        &&& G::extracted(registry, value.6)
    }

    fn from_registry(registry: &Registry) -> Self {
        (
            A::from_registry(registry),
            B::from_registry(registry),
            C::from_registry(registry),
            D::from_registry(registry),
            E::from_registry(registry),
            F::from_registry(registry),
            G::from_registry(registry),
        )
    }
}

impl<
    Registry,
    A: FromRegistry<Registry>,
    B: FromRegistry<Registry>,
    C: FromRegistry<Registry>,
    D: FromRegistry<Registry>,
    E: FromRegistry<Registry>,
    F: FromRegistry<Registry>,
    G: FromRegistry<Registry>,
    H: FromRegistry<Registry>,
> FromRegistry<Registry> for (A, B, C, D, E, F, G, H) {
    open spec fn available(registry: &Registry) -> bool {
        &&& A::available(registry)
        &&& B::available(registry)
        &&& C::available(registry)
        &&& D::available(registry)
        &&& E::available(registry)
        &&& F::available(registry)
        &&& G::available(registry)
        &&& H::available(registry)
    }

    open spec fn extracted(registry: &Registry, value: (A, B, C, D, E, F, G, H)) -> bool {
        &&& A::extracted(registry, value.0)
        &&& B::extracted(registry, value.1)
        &&& C::extracted(registry, value.2)
        &&& D::extracted(registry, value.3)
        &&& E::extracted(registry, value.4)
        &&& F::extracted(registry, value.5)
        &&& G::extracted(registry, value.6)
        &&& H::extracted(registry, value.7)
    }

    fn from_registry(registry: &Registry) -> Self {
        (
            A::from_registry(registry),
            B::from_registry(registry),
            C::from_registry(registry),
            D::from_registry(registry),
            E::from_registry(registry),
            F::from_registry(registry),
            G::from_registry(registry),
            H::from_registry(registry),
        )
    }
}

impl<
    Registry,
    A: FromRegistry<Registry>,
    B: FromRegistry<Registry>,
    C: FromRegistry<Registry>,
    D: FromRegistry<Registry>,
    E: FromRegistry<Registry>,
    F: FromRegistry<Registry>,
    G: FromRegistry<Registry>,
    H: FromRegistry<Registry>,
    I: FromRegistry<Registry>,
> FromRegistry<Registry> for (A, B, C, D, E, F, G, H, I) {
    open spec fn available(registry: &Registry) -> bool {
        &&& A::available(registry)
        &&& B::available(registry)
        &&& C::available(registry)
        &&& D::available(registry)
        &&& E::available(registry)
        &&& F::available(registry)
        &&& G::available(registry)
        &&& H::available(registry)
        &&& I::available(registry)
    }

    open spec fn extracted(registry: &Registry, value: (A, B, C, D, E, F, G, H, I)) -> bool {
        &&& A::extracted(registry, value.0)
        &&& B::extracted(registry, value.1)
        &&& C::extracted(registry, value.2)
        &&& D::extracted(registry, value.3)
        &&& E::extracted(registry, value.4)
        &&& F::extracted(registry, value.5)
        &&& G::extracted(registry, value.6)
        &&& H::extracted(registry, value.7)
        &&& I::extracted(registry, value.8)
    }

    fn from_registry(registry: &Registry) -> Self {
        (
            A::from_registry(registry),
            B::from_registry(registry),
            C::from_registry(registry),
            D::from_registry(registry),
            E::from_registry(registry),
            F::from_registry(registry),
            G::from_registry(registry),
            H::from_registry(registry),
            I::from_registry(registry),
        )
    }
}

impl<
    Registry,
    A: FromRegistry<Registry>,
    B: FromRegistry<Registry>,
    C: FromRegistry<Registry>,
    D: FromRegistry<Registry>,
    E: FromRegistry<Registry>,
    F: FromRegistry<Registry>,
    G: FromRegistry<Registry>,
    H: FromRegistry<Registry>,
    I: FromRegistry<Registry>,
    J: FromRegistry<Registry>,
> FromRegistry<Registry> for (A, B, C, D, E, F, G, H, I, J) {
    open spec fn available(registry: &Registry) -> bool {
        &&& A::available(registry)
        &&& B::available(registry)
        &&& C::available(registry)
        &&& D::available(registry)
        &&& E::available(registry)
        &&& F::available(registry)
        &&& G::available(registry)
        &&& H::available(registry)
        &&& I::available(registry)
        &&& J::available(registry)
    }

    open spec fn extracted(registry: &Registry, value: (A, B, C, D, E, F, G, H, I, J)) -> bool {
        &&& A::extracted(registry, value.0)
        &&& B::extracted(registry, value.1)
        &&& C::extracted(registry, value.2)
        &&& D::extracted(registry, value.3)
        &&& E::extracted(registry, value.4)
        &&& F::extracted(registry, value.5)
        &&& G::extracted(registry, value.6)
        &&& H::extracted(registry, value.7)
        &&& I::extracted(registry, value.8)
        &&& J::extracted(registry, value.9)
    }

    fn from_registry(registry: &Registry) -> Self {
        (
            A::from_registry(registry),
            B::from_registry(registry),
            C::from_registry(registry),
            D::from_registry(registry),
            E::from_registry(registry),
            F::from_registry(registry),
            G::from_registry(registry),
            H::from_registry(registry),
            I::from_registry(registry),
            J::from_registry(registry),
        )
    }
}

impl<
    Registry,
    A: FromRegistry<Registry>,
    B: FromRegistry<Registry>,
    C: FromRegistry<Registry>,
    D: FromRegistry<Registry>,
    E: FromRegistry<Registry>,
    F: FromRegistry<Registry>,
    G: FromRegistry<Registry>,
    H: FromRegistry<Registry>,
    I: FromRegistry<Registry>,
    J: FromRegistry<Registry>,
    K: FromRegistry<Registry>,
> FromRegistry<Registry> for (A, B, C, D, E, F, G, H, I, J, K) {
    open spec fn available(registry: &Registry) -> bool {
        &&& A::available(registry)
        &&& B::available(registry)
        &&& C::available(registry)
        &&& D::available(registry)
        &&& E::available(registry)
        &&& F::available(registry)
        &&& G::available(registry)
        &&& H::available(registry)
        &&& I::available(registry)
        &&& J::available(registry)
        &&& K::available(registry)
    }

    open spec fn extracted(registry: &Registry, value: (A, B, C, D, E, F, G, H, I, J, K)) -> bool {
        &&& A::extracted(registry, value.0)
        &&& B::extracted(registry, value.1)
        &&& C::extracted(registry, value.2)
        &&& D::extracted(registry, value.3)
        &&& E::extracted(registry, value.4)
        &&& F::extracted(registry, value.5)
        &&& G::extracted(registry, value.6)
        &&& H::extracted(registry, value.7)
        &&& I::extracted(registry, value.8)
        &&& J::extracted(registry, value.9)
        &&& K::extracted(registry, value.10)
    }

    fn from_registry(registry: &Registry) -> Self {
        (
            A::from_registry(registry),
            B::from_registry(registry),
            C::from_registry(registry),
            D::from_registry(registry),
            E::from_registry(registry),
            F::from_registry(registry),
            G::from_registry(registry),
            H::from_registry(registry),
            I::from_registry(registry),
            J::from_registry(registry),
            K::from_registry(registry),
        )
    }
}

impl<
    Registry,
    A: FromRegistry<Registry>,
    B: FromRegistry<Registry>,
    C: FromRegistry<Registry>,
    D: FromRegistry<Registry>,
    E: FromRegistry<Registry>,
    F: FromRegistry<Registry>,
    G: FromRegistry<Registry>,
    H: FromRegistry<Registry>,
    I: FromRegistry<Registry>,
    J: FromRegistry<Registry>,
    K: FromRegistry<Registry>,
    L: FromRegistry<Registry>,
> FromRegistry<Registry> for (A, B, C, D, E, F, G, H, I, J, K, L) {
    open spec fn available(registry: &Registry) -> bool {
        &&& A::available(registry)
        &&& B::available(registry)
        &&& C::available(registry)
        &&& D::available(registry)
        &&& E::available(registry)
        &&& F::available(registry)
        &&& G::available(registry)
        &&& H::available(registry)
        &&& I::available(registry)
        &&& J::available(registry)
        &&& K::available(registry)
        &&& L::available(registry)
    }

    open spec fn extracted(
        registry: &Registry,
        value: (A, B, C, D, E, F, G, H, I, J, K, L),
    ) -> bool {
        &&& A::extracted(registry, value.0)
        &&& B::extracted(registry, value.1)
        &&& C::extracted(registry, value.2)
        &&& D::extracted(registry, value.3)
        &&& E::extracted(registry, value.4)
        &&& F::extracted(registry, value.5)
        &&& G::extracted(registry, value.6)
        &&& H::extracted(registry, value.7)
        &&& I::extracted(registry, value.8)
        &&& J::extracted(registry, value.9)
        &&& K::extracted(registry, value.10)
        &&& L::extracted(registry, value.11)
    }

    fn from_registry(registry: &Registry) -> Self {
        (
            A::from_registry(registry),
            B::from_registry(registry),
            C::from_registry(registry),
            D::from_registry(registry),
            E::from_registry(registry),
            F::from_registry(registry),
            G::from_registry(registry),
            H::from_registry(registry),
            I::from_registry(registry),
            J::from_registry(registry),
            K::from_registry(registry),
            L::from_registry(registry),
        )
    }
}

impl<
    Registry,
    A: FromRegistry<Registry>,
    B: FromRegistry<Registry>,
    C: FromRegistry<Registry>,
    D: FromRegistry<Registry>,
    E: FromRegistry<Registry>,
    F: FromRegistry<Registry>,
    G: FromRegistry<Registry>,
    H: FromRegistry<Registry>,
    I: FromRegistry<Registry>,
    J: FromRegistry<Registry>,
    K: FromRegistry<Registry>,
    L: FromRegistry<Registry>,
    M: FromRegistry<Registry>,
> FromRegistry<Registry> for (A, B, C, D, E, F, G, H, I, J, K, L, M) {
    open spec fn available(registry: &Registry) -> bool {
        &&& A::available(registry)
        &&& B::available(registry)
        &&& C::available(registry)
        &&& D::available(registry)
        &&& E::available(registry)
        &&& F::available(registry)
        &&& G::available(registry)
        &&& H::available(registry)
        &&& I::available(registry)
        &&& J::available(registry)
        &&& K::available(registry)
        &&& L::available(registry)
        &&& M::available(registry)
    }

    open spec fn extracted(
        registry: &Registry,
        value: (A, B, C, D, E, F, G, H, I, J, K, L, M),
    ) -> bool {
        &&& A::extracted(registry, value.0)
        &&& B::extracted(registry, value.1)
        &&& C::extracted(registry, value.2)
        &&& D::extracted(registry, value.3)
        &&& E::extracted(registry, value.4)
        &&& F::extracted(registry, value.5)
        &&& G::extracted(registry, value.6)
        &&& H::extracted(registry, value.7)
        &&& I::extracted(registry, value.8)
        &&& J::extracted(registry, value.9)
        &&& K::extracted(registry, value.10)
        &&& L::extracted(registry, value.11)
        &&& M::extracted(registry, value.12)
    }

    fn from_registry(registry: &Registry) -> Self {
        (
            A::from_registry(registry),
            B::from_registry(registry),
            C::from_registry(registry),
            D::from_registry(registry),
            E::from_registry(registry),
            F::from_registry(registry),
            G::from_registry(registry),
            H::from_registry(registry),
            I::from_registry(registry),
            J::from_registry(registry),
            K::from_registry(registry),
            L::from_registry(registry),
            M::from_registry(registry),
        )
    }
}

impl<
    Registry,
    A: FromRegistry<Registry>,
    B: FromRegistry<Registry>,
    C: FromRegistry<Registry>,
    D: FromRegistry<Registry>,
    E: FromRegistry<Registry>,
    F: FromRegistry<Registry>,
    G: FromRegistry<Registry>,
    H: FromRegistry<Registry>,
    I: FromRegistry<Registry>,
    J: FromRegistry<Registry>,
    K: FromRegistry<Registry>,
    L: FromRegistry<Registry>,
    M: FromRegistry<Registry>,
    N: FromRegistry<Registry>,
> FromRegistry<Registry> for (A, B, C, D, E, F, G, H, I, J, K, L, M, N) {
    open spec fn available(registry: &Registry) -> bool {
        &&& A::available(registry)
        &&& B::available(registry)
        &&& C::available(registry)
        &&& D::available(registry)
        &&& E::available(registry)
        &&& F::available(registry)
        &&& G::available(registry)
        &&& H::available(registry)
        &&& I::available(registry)
        &&& J::available(registry)
        &&& K::available(registry)
        &&& L::available(registry)
        &&& M::available(registry)
        &&& N::available(registry)
    }

    open spec fn extracted(
        registry: &Registry,
        value: (A, B, C, D, E, F, G, H, I, J, K, L, M, N),
    ) -> bool {
        &&& A::extracted(registry, value.0)
        &&& B::extracted(registry, value.1)
        &&& C::extracted(registry, value.2)
        &&& D::extracted(registry, value.3)
        &&& E::extracted(registry, value.4)
        &&& F::extracted(registry, value.5)
        &&& G::extracted(registry, value.6)
        &&& H::extracted(registry, value.7)
        &&& I::extracted(registry, value.8)
        &&& J::extracted(registry, value.9)
        &&& K::extracted(registry, value.10)
        &&& L::extracted(registry, value.11)
        &&& M::extracted(registry, value.12)
        &&& N::extracted(registry, value.13)
    }

    fn from_registry(registry: &Registry) -> Self {
        (
            A::from_registry(registry),
            B::from_registry(registry),
            C::from_registry(registry),
            D::from_registry(registry),
            E::from_registry(registry),
            F::from_registry(registry),
            G::from_registry(registry),
            H::from_registry(registry),
            I::from_registry(registry),
            J::from_registry(registry),
            K::from_registry(registry),
            L::from_registry(registry),
            M::from_registry(registry),
            N::from_registry(registry),
        )
    }
}

impl<
    Registry,
    A: FromRegistry<Registry>,
    B: FromRegistry<Registry>,
    C: FromRegistry<Registry>,
    D: FromRegistry<Registry>,
    E: FromRegistry<Registry>,
    F: FromRegistry<Registry>,
    G: FromRegistry<Registry>,
    H: FromRegistry<Registry>,
    I: FromRegistry<Registry>,
    J: FromRegistry<Registry>,
    K: FromRegistry<Registry>,
    L: FromRegistry<Registry>,
    M: FromRegistry<Registry>,
    N: FromRegistry<Registry>,
    O: FromRegistry<Registry>,
> FromRegistry<Registry> for (A, B, C, D, E, F, G, H, I, J, K, L, M, N, O) {
    open spec fn available(registry: &Registry) -> bool {
        &&& A::available(registry)
        &&& B::available(registry)
        &&& C::available(registry)
        &&& D::available(registry)
        &&& E::available(registry)
        &&& F::available(registry)
        &&& G::available(registry)
        &&& H::available(registry)
        &&& I::available(registry)
        &&& J::available(registry)
        &&& K::available(registry)
        &&& L::available(registry)
        &&& M::available(registry)
        &&& N::available(registry)
        &&& O::available(registry)
    }

    open spec fn extracted(
        registry: &Registry,
        value: (A, B, C, D, E, F, G, H, I, J, K, L, M, N, O),
    ) -> bool {
        &&& A::extracted(registry, value.0)
        &&& B::extracted(registry, value.1)
        &&& C::extracted(registry, value.2)
        &&& D::extracted(registry, value.3)
        &&& E::extracted(registry, value.4)
        &&& F::extracted(registry, value.5)
        &&& G::extracted(registry, value.6)
        &&& H::extracted(registry, value.7)
        &&& I::extracted(registry, value.8)
        &&& J::extracted(registry, value.9)
        &&& K::extracted(registry, value.10)
        &&& L::extracted(registry, value.11)
        &&& M::extracted(registry, value.12)
        &&& N::extracted(registry, value.13)
        &&& O::extracted(registry, value.14)
    }

    fn from_registry(registry: &Registry) -> Self {
        (
            A::from_registry(registry),
            B::from_registry(registry),
            C::from_registry(registry),
            D::from_registry(registry),
            E::from_registry(registry),
            F::from_registry(registry),
            G::from_registry(registry),
            H::from_registry(registry),
            I::from_registry(registry),
            J::from_registry(registry),
            K::from_registry(registry),
            L::from_registry(registry),
            M::from_registry(registry),
            N::from_registry(registry),
            O::from_registry(registry),
        )
    }
}

} // verus!
